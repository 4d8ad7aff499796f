//! Which rotated log files to keep.

use vstd::prelude::*;
use vstd::seq_lib::*;
use vstd::string::*;
use vstd::utf8::*;

verus! {

/// How many days of log files are kept.
pub const KEEP_DAYS: usize = 7;

/// Whether bytes are a date of the form YYYY-MM-DD, by their shape.
pub open spec fn is_date(bytes: Seq<u8>) -> bool {
    &&& bytes.len() == 10
    &&& forall|i: int|
        0 <= i < 10 ==> if i == 4 || i == 7 {
            #[trigger] bytes[i] == '-' as u8
        } else {
            '0' as u8 <= bytes[i] <= '9' as u8
        }
}

/// Whether a name is that of a dated log file: `{prefix}.YYYY-MM-DD`.
pub open spec fn is_dated_log(name: Seq<u8>, prefix: Seq<u8>) -> bool {
    &&& name.len() == prefix.len() + 11
    &&& name.take(prefix.len() as int) == prefix
    &&& name[prefix.len() as int] == '.' as u8
    &&& is_date(name.skip(prefix.len() as int + 1))
}

/// The bytes of a name.
pub open spec fn name_bytes(name: String) -> Seq<u8> {
    encode_utf8(name@)
}

/// The dated log files among `names`.
pub open spec fn dated_logs(names: Seq<String>, prefix: Seq<u8>) -> Seq<String>
    decreases names.len(),
{
    if names.len() == 0 {
        Seq::empty()
    } else {
        let before = dated_logs(names.drop_last(), prefix);
        if is_dated_log(name_bytes(names.last()), prefix) {
            before.push(names.last())
        } else {
            before
        }
    }
}

/// Whether `a` comes no later than `b` in the order of dictionaries.
pub open spec fn no_later(a: Seq<u8>, b: Seq<u8>) -> bool
    decreases a.len(),
{
    if a.len() == 0 {
        true
    } else if b.len() == 0 {
        false
    } else if a[0] == b[0] {
        no_later(a.skip(1), b.skip(1))
    } else {
        a[0] < b[0]
    }
}

/// Whether names are in order, which is that of their dates.
pub open spec fn in_order(names: Seq<String>) -> bool {
    forall|i: int, j: int|
        0 <= i <= j < names.len() ==> no_later(
            name_bytes(#[trigger] names[i]),
            name_bytes(#[trigger] names[j]),
        )
}

/// Whether `files` are the same as `others`, in order.
pub open spec fn orders(files: Seq<String>, others: Seq<String>) -> bool {
    in_order(files) && files.to_multiset() == others.to_multiset()
}

proof fn lemma_no_later_total(a: Seq<u8>, b: Seq<u8>)
    ensures
        no_later(a, b) || no_later(b, a),
    decreases a.len(),
{
    if a.len() > 0 && b.len() > 0 && a[0] == b[0] {
        lemma_no_later_total(a.skip(1), b.skip(1));
    }
}

proof fn lemma_no_later_transitive(a: Seq<u8>, b: Seq<u8>, c: Seq<u8>)
    requires
        no_later(a, b),
        no_later(b, c),
    ensures
        no_later(a, c),
    decreases a.len(),
{
    if a.len() > 0 && b.len() > 0 && c.len() > 0 && a[0] == b[0] && b[0] == c[0] {
        lemma_no_later_transitive(a.skip(1), b.skip(1), c.skip(1));
    }
}

/// Whether a date is one, by its shape.
pub fn is_iso_date(s: &str) -> (r: bool)
    ensures
        r == is_date(encode_utf8(s@)),
{
    is_date_bytes(s.as_bytes())
}

fn is_date_bytes(bytes: &[u8]) -> (r: bool)
    ensures
        r == is_date(bytes@),
{
    if bytes.len() != 10 {
        return false;
    }
    let mut i: usize = 0;
    while i < 10
        invariant
            i <= 10,
            bytes@.len() == 10,
            forall|j: int|
                0 <= j < i ==> if j == 4 || j == 7 {
                    #[trigger] bytes@[j] == '-' as u8
                } else {
                    '0' as u8 <= bytes@[j] <= '9' as u8
                },
        decreases 10 - i,
    {
        let b = bytes[i];
        let fits = if i == 4 || i == 7 {
            b == 45
        } else {
            48 <= b && b <= 57
        };
        if !fits {
            return false;
        }
        i += 1;
    }
    true
}

fn is_dated(name: &[u8], prefix: &[u8]) -> (r: bool)
    ensures
        r == is_dated_log(name@, prefix@),
{
    if name.len() < prefix.len() || name.len() - prefix.len() != 11 {
        return false;
    }
    let mut i: usize = 0;
    while i < prefix.len()
        invariant
            i <= prefix@.len(),
            name@.len() == prefix@.len() + 11,
            forall|j: int| 0 <= j < i ==> name@[j] == prefix@[j],
        decreases prefix.len() - i,
    {
        if name[i] != prefix[i] {
            proof {
                assert(name@.take(prefix@.len() as int)[i as int] != prefix@[i as int]);
            }
            return false;
        }
        i += 1;
    }
    proof {
        assert(name@.take(prefix@.len() as int) =~= prefix@);
    }
    if name[prefix.len()] != 46 {
        return false;
    }
    let date = vstd::slice::slice_subrange(name, prefix.len() + 1, name.len());
    proof {
        assert(date@ =~= name@.skip(prefix@.len() as int + 1));
    }
    is_date_bytes(date)
}

fn is_no_later(a: &[u8], b: &[u8]) -> (r: bool)
    ensures
        r == no_later(a@, b@),
{
    let mut i: usize = 0;
    proof {
        assert(a@.skip(0) =~= a@ && b@.skip(0) =~= b@);
    }
    loop
        invariant
            i <= a@.len(),
            i <= b@.len(),
            no_later(a@, b@) == no_later(a@.skip(i as int), b@.skip(i as int)),
        decreases a@.len() - i,
    {
        if i == a.len() {
            return true;
        }
        if i == b.len() {
            return false;
        }
        if a[i] != b[i] {
            return a[i] < b[i];
        }
        proof {
            assert(a@.skip(i as int).skip(1) =~= a@.skip(i + 1));
            assert(b@.skip(i as int).skip(1) =~= b@.skip(i + 1));
        }
        i += 1;
    }
}

/// Insert a name where it belongs.
fn insert_in_order(names: &mut Vec<String>, name: String)
    requires
        in_order(old(names)@),
    ensures
        in_order(final(names)@),
        final(names)@.to_multiset() == old(names)@.to_multiset().insert(name),
{
    let mut at: usize = names.len();
    while at > 0 && !is_no_later(
        names[at - 1].as_str().as_bytes(),
        name.as_str().as_bytes(),
    )
        invariant
            at <= names@.len(),
            in_order(names@),
            forall|j: int|
                at <= j < names@.len() ==> no_later(
                    name_bytes(name),
                    name_bytes(#[trigger] names@[j]),
                ),
        decreases at,
    {
        proof {
            lemma_no_later_total(name_bytes(name), name_bytes(names@[at - 1]));
        }
        at -= 1;
    }
    proof {
        let after = names@.insert(at as int, name);
        assert forall|i: int, j: int| 0 <= i <= j < after.len() implies no_later(
            name_bytes(#[trigger] after[i]),
            name_bytes(#[trigger] after[j]),
        ) by {
            if i == j {
                lemma_no_later_total(name_bytes(after[i]), name_bytes(after[i]));
            } else if j < at {
                assert(after[i] == names@[i] && after[j] == names@[j]);
            } else if j == at {
                assert(after[i] == names@[i]);
                assert(no_later(name_bytes(names@[i]), name_bytes(names@[at - 1])));
                lemma_no_later_transitive(
                    name_bytes(names@[i]),
                    name_bytes(names@[at - 1]),
                    name_bytes(name),
                );
            } else if i < at {
                assert(after[i] == names@[i] && after[j] == names@[j - 1]);
            } else if i == at {
                assert(after[j] == names@[j - 1]);
            } else {
                assert(after[i] == names@[i - 1] && after[j] == names@[j - 1]);
            }
        }
        to_multiset_insert(names@, at as int, name);
    }
    names.insert(at, name);
}

/// How many of `total` files have to go for `keep` to be left.
pub open spec fn surplus(total: nat, keep: nat) -> int {
    if total <= keep {
        0
    } else {
        total - keep
    }
}

/// Which of the files with these names to delete: of the dated log files with that
/// prefix, all but the `keep` most recent. Names in order are dates in order. Other
/// files are left alone.
pub fn prune_old_logs(names: &Vec<String>, prefix: &str, keep: usize) -> (r: Vec<String>)
    ensures
        exists|files: Seq<String>| #[trigger]
            orders(files, dated_logs(names@, encode_utf8(prefix@))) && r@ == files.take(
                surplus(files.len(), keep as nat),
            ),
{
    let mut files: Vec<String> = Vec::new();
    let mut i: usize = 0;
    proof {
        assert(names@.take(0) =~= Seq::<String>::empty());
    }
    while i < names.len()
        invariant
            i <= names@.len(),
            orders(files@, dated_logs(names@.take(i as int), encode_utf8(prefix@))),
        decreases names.len() - i,
    {
        proof {
            assert(names@.take(i + 1).drop_last() =~= names@.take(i as int));
            assert(names@.take(i + 1).last() == names@[i as int]);
        }
        if is_dated(names[i].as_str().as_bytes(), prefix.as_bytes()) {
            let ghost before = dated_logs(names@.take(i as int), encode_utf8(prefix@));
            let name = names[i].clone();
            proof {
                before.to_multiset_ensures();
            }
            insert_in_order(&mut files, name);
        }
        i += 1;
    }
    proof {
        assert(names@.take(i as int) =~= names@);
    }
    let ghost all = files@;
    if files.len() <= keep {
        files.truncate(0);
    } else {
        let gone: usize = files.len() - keep;
        files.truncate(gone);
    }
    proof {
        assert(files@ =~= all.take(surplus(all.len(), keep as nat)));
    }
    files
}

/// The value of a digit.
pub open spec fn digit(b: u8) -> int {
    b - '0' as u8
}

/// A date YYYY-MM-DD as the number YYYYMMDD.
pub open spec fn date_number(date: Seq<u8>) -> int {
    digit(date[0]) * 10000000 + digit(date[1]) * 1000000 + digit(date[2]) * 100000 + digit(date[3])
        * 10000 + digit(date[5]) * 1000 + digit(date[6]) * 100 + digit(date[8]) * 10 + digit(
        date[9],
    )
}

/// The date of a dated log file.
pub open spec fn log_date(name: Seq<u8>, prefix: Seq<u8>) -> Seq<u8> {
    name.skip(prefix.len() as int + 1)
}

proof fn lemma_no_later_step(a: Seq<u8>, b: Seq<u8>, i: int)
    requires
        0 <= i < a.len(),
        a.len() == b.len(),
    ensures
        no_later(a.skip(i), b.skip(i)) == (if a[i] == b[i] {
            no_later(a.skip(i + 1), b.skip(i + 1))
        } else {
            a[i] < b[i]
        }),
{
    assert(a.skip(i).skip(1) =~= a.skip(i + 1));
    assert(b.skip(i).skip(1) =~= b.skip(i + 1));
}

proof fn lemma_common_prefix(a: Seq<u8>, b: Seq<u8>, n: int)
    requires
        0 <= n <= a.len(),
        a.len() == b.len(),
        a.take(n) == b.take(n),
    ensures
        no_later(a, b) == no_later(a.skip(n), b.skip(n)),
    decreases n,
{
    if n == 0 {
        assert(a.skip(0) =~= a && b.skip(0) =~= b);
    } else {
        assert(a.take(n).take(n - 1) =~= a.take(n - 1));
        assert(b.take(n).take(n - 1) =~= b.take(n - 1));
        lemma_common_prefix(a, b, n - 1);
        assert(a[n - 1] == a.take(n)[n - 1] && b[n - 1] == b.take(n)[n - 1]);
        lemma_no_later_step(a, b, n - 1);
        assert(n - 1 + 1 == n);
    }
}

/// Law: dated log files are in the order of their dates exactly where their names
/// are in order.
pub proof fn law_name_order_is_date_order(a: Seq<u8>, b: Seq<u8>, prefix: Seq<u8>)
    requires
        is_dated_log(a, prefix),
        is_dated_log(b, prefix),
    ensures
        no_later(a, b) <==> date_number(log_date(a, prefix)) <= date_number(log_date(b, prefix)),
{
    let n = prefix.len() as int;
    let x = log_date(a, prefix);
    let y = log_date(b, prefix);
    lemma_common_prefix(a, b, n);
    lemma_no_later_step(a, b, n);
    assert(x.skip(0) =~= x && y.skip(0) =~= y);
    lemma_no_later_step(x, y, 0);
    lemma_no_later_step(x, y, 1);
    lemma_no_later_step(x, y, 2);
    lemma_no_later_step(x, y, 3);
    lemma_no_later_step(x, y, 4);
    lemma_no_later_step(x, y, 5);
    lemma_no_later_step(x, y, 6);
    lemma_no_later_step(x, y, 7);
    lemma_no_later_step(x, y, 8);
    lemma_no_later_step(x, y, 9);
    assert(x.skip(10).len() == 0);
    assert(x[4] == y[4] && x[7] == y[7]);
    assert forall|i: int| 0 <= i < 10 && i != 4 && i != 7 implies 0 <= #[trigger] digit(x[i]) <= 9
        && 0 <= digit(y[i]) <= 9 by {}
}

/// Whether `r` is the first failure among outcomes, if there is one.
pub open spec fn is_first_failure<E>(outcomes: Seq<Result<(), E>>, r: Result<(), E>) -> bool {
    match r {
        Ok(()) => forall|i: int| 0 <= i < outcomes.len() ==> #[trigger] outcomes[i] is Ok,
        Err(e) => exists|i: int|
            0 <= i < outcomes.len() && #[trigger] outcomes[i] == Err::<(), E>(e) && forall|j: int|
                0 <= j < i ==> #[trigger] outcomes[j] is Ok,
    }
}

/// The first failure among the outcomes of removing files, if there is one.
pub fn first_failure<E>(outcomes: Vec<Result<(), E>>) -> (r: Result<(), E>)
    ensures
        is_first_failure(outcomes@, r),
{
    let ghost all = outcomes@;
    let mut left = outcomes;
    let mut found: Result<(), E> = Ok(());
    let ghost mut at: int = all.len() as int;
    while left.len() > 0
        invariant
            left@.len() <= all.len(),
            left@ == all.take(left@.len() as int),
            match found {
                Ok(()) => at == all.len(),
                Err(e) => left@.len() <= at < all.len() && all[at] == Err::<(), E>(e),
            },
            forall|j: int| left@.len() <= j < at ==> #[trigger] all[j] is Ok,
        decreases left@.len(),
    {
        let ghost n = left@.len() - 1;
        if let Some(outcome) = left.pop() {
            proof {
                assert(outcome == all[n]);
                assert(left@ =~= all.take(n));
            }
            if outcome.is_err() {
                proof {
                    at = n;
                }
                found = outcome;
            }
        }
    }
    found
}

/// Law: a name is that of a dated log file exactly where the prefix, a dot, four digits,
/// a dash, two digits, a dash and two digits are all of it.
pub proof fn law_dated_names(name: Seq<u8>, prefix: Seq<u8>)
    ensures
        is_dated_log(name, prefix) <==> {
            let p = prefix.len() as int;
            &&& name.len() == p + 11
            &&& forall|k: int| 0 <= k < p ==> #[trigger] name[k] == prefix[k]
            &&& name[p] == 46 && name[p + 5] == 45 && name[p + 8] == 45
            &&& 48 <= name[p + 1] <= 57 && 48 <= name[p + 2] <= 57 && 48 <= name[p + 3] <= 57 && 48
                <= name[p + 4] <= 57
            &&& 48 <= name[p + 6] <= 57 && 48 <= name[p + 7] <= 57
            &&& 48 <= name[p + 9] <= 57 && 48 <= name[p + 10] <= 57
        },
{
    let p = prefix.len() as int;
    if name.len() == p + 11 {
        let date = name.skip(p + 1);
        assert(date.len() == 10);
        assert(date[0] == name[p + 1] && date[1] == name[p + 2] && date[2] == name[p + 3]
            && date[3] == name[p + 4] && date[4] == name[p + 5] && date[5] == name[p + 6]
            && date[6] == name[p + 7] && date[7] == name[p + 8] && date[8] == name[p + 9]
            && date[9] == name[p + 10]);
        if name.take(p) == prefix {
            assert forall|k: int| 0 <= k < p implies #[trigger] name[k] == prefix[k] by {
                assert(name.take(p)[k] == name[k]);
            }
        } else if forall|k: int| 0 <= k < p ==> #[trigger] name[k] == prefix[k] {
            assert(name.take(p) =~= prefix);
        }
    }
}

/// How often a log file is among names.
proof fn lemma_dated_logs_count(names: Seq<String>, prefix: Seq<u8>, name: String)
    ensures
        dated_logs(names, prefix).to_multiset().count(name) == (if is_dated_log(
            name_bytes(name),
            prefix,
        ) {
            names.to_multiset().count(name)
        } else {
            0
        }),
    decreases names.len(),
{
    dated_logs(names, prefix).to_multiset_ensures();
    names.to_multiset_ensures();
    if names.len() > 0 {
        let front = names.drop_last();
        lemma_dated_logs_count(front, prefix, name);
        front.to_multiset_ensures();
        dated_logs(front, prefix).to_multiset_ensures();
        assert(names =~= front.push(names.last()));
    } else {
        assert(names =~= Seq::<String>::empty());
        assert(dated_logs(names, prefix) =~= Seq::<String>::empty());
        if names.to_multiset().count(name) > 0 {
            assert(names.contains(name));
        }
    }
}

/// Law: pruning deletes dated log files and nothing else, so many that as many are left
/// as are to be kept; none that is deleted is of a later day than one that is kept.
/// `files` are the dated log files in order, of which the first ones go.
pub proof fn law_pruning_keeps_the_latest(
    names: Seq<String>,
    prefix: Seq<u8>,
    keep: nat,
    files: Seq<String>,
    name: String,
)
    requires
        orders(files, dated_logs(names, prefix)),
    ensures
        files.to_multiset().count(name) == (if is_dated_log(encode_utf8(name@), prefix) {
            names.to_multiset().count(name)
        } else {
            0
        }),
        files.len() <= keep ==> files.take(surplus(files.len(), keep)).len() == 0,
        files.len() > keep ==> files.take(surplus(files.len(), keep)).len() == files.len() - keep,
        forall|i: int, j: int|
            0 <= i < surplus(files.len(), keep) <= j < files.len() ==> date_number(
                log_date(encode_utf8((#[trigger] files[i])@), prefix),
            ) <= date_number(log_date(encode_utf8((#[trigger] files[j])@), prefix)),
{
    lemma_dated_logs_count(names, prefix, name);
    files.to_multiset_ensures();
    assert forall|i: int, j: int|
        0 <= i < surplus(files.len(), keep) <= j < files.len() implies date_number(
        log_date(encode_utf8((#[trigger] files[i])@), prefix),
    ) <= date_number(log_date(encode_utf8((#[trigger] files[j])@), prefix)) by {
        lemma_dated_logs_count(names, prefix, files[i]);
        lemma_dated_logs_count(names, prefix, files[j]);
        assert(files.contains(files[i]) && files.contains(files[j]));
        law_name_order_is_date_order(name_bytes(files[i]), name_bytes(files[j]), prefix);
    }
}

/// Law: what is reported of several outcomes is a failure exactly where one is, and
/// then the first.
pub proof fn law_first_failures_are_reported<E>(
    outcomes: Seq<Result<(), E>>,
    r: Result<(), E>,
    k: int,
)
    requires
        is_first_failure(outcomes, r),
        0 <= k <= outcomes.len(),
        forall|i: int| 0 <= i < k ==> #[trigger] outcomes[i] is Ok,
        k < outcomes.len() ==> outcomes[k] is Err,
    ensures
        k < outcomes.len() ==> r == outcomes[k],
        k == outcomes.len() ==> r is Ok,
{
    if let Err(e) = r {
        let i = choose|i: int|
            0 <= i < outcomes.len() && #[trigger] outcomes[i] == Err::<(), E>(e) && forall|j: int|
                0 <= j < i ==> #[trigger] outcomes[j] is Ok;
        if i < k {
            assert(outcomes[i] is Ok);
        }
        if k < i {
            assert(outcomes[k] is Ok);
        }
    }
}

} // verus!
