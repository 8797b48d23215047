//! The ordered, versioned migration set and the plan that applies it.
//!
//! A migration is an SQL script named `<version>_<description>.sql`: a
//! non-empty run of decimal digits, an underscore, any description, and the
//! `.sql` extension. The set is kept in strictly ascending version order,
//! and a database records the versions it has applied. The plan for a run
//! is the suffix of the set past the recorded history; it exists only when
//! the history is an exact prefix of the set, so migrations are applied in
//! ascending order and the history never has a gap — an unapplied lower
//! version under an applied higher one.

use vstd::prelude::*;

use crate::errors::DatabaseError;

verus! {

/// An ASCII decimal digit byte.
pub open spec fn is_ascii_digit(b: u8) -> bool {
    48 <= b && b <= 57
}

/// The first `k` bytes of `name` are decimal digits.
pub open spec fn digits_before(name: Seq<u8>, k: int) -> bool {
    forall|i: int| 0 <= i < k ==> is_ascii_digit(#[trigger] name[i])
}

/// The number a run of decimal digit bytes denotes, most significant first.
pub open spec fn digits_value(s: Seq<u8>) -> nat
    decreases s.len(),
{
    if s.len() == 0 {
        0
    } else {
        digits_value(s.drop_last()) * 10 + (s.last() - 48) as nat
    }
}

/// `name` ends in the four bytes of `.sql`.
pub open spec fn has_sql_suffix(name: Seq<u8>) -> bool {
    &&& name.len() >= 4
    &&& name[name.len() - 4] == 46
    &&& name[name.len() - 3] == 115
    &&& name[name.len() - 2] == 113
    &&& name[name.len() - 1] == 108
}

/// `name` is a well-formed migration filename whose version has `k` digits:
/// a digit run of length 1 to 19 (so the version fits in a 64-bit integer),
/// an underscore at `k`, and the `.sql` extension after the underscore.
pub open spec fn valid_migration_name(name: Seq<u8>, k: int) -> bool {
    &&& 1 <= k <= 19
    &&& k + 5 <= name.len()
    &&& name[k] == 95
    &&& digits_before(name, k)
    &&& has_sql_suffix(name)
}

/// Ten to the power `n`.
pub open spec fn pow10(n: nat) -> nat
    decreases n,
{
    if n == 0 {
        1
    } else {
        10 * pow10((n - 1) as nat)
    }
}

proof fn lemma_pow10_mono(a: nat, b: nat)
    requires
        a <= b,
    ensures
        pow10(a) <= pow10(b),
    decreases b,
{
    if a < b {
        lemma_pow10_mono(a, (b - 1) as nat);
    }
}

proof fn lemma_digits_value_bound(name: Seq<u8>, k: int)
    requires
        0 <= k <= name.len(),
        digits_before(name, k),
    ensures
        digits_value(name.subrange(0, k)) < pow10(k as nat),
    decreases k,
{
    if k == 0 {
        assert(name.subrange(0, 0) =~= Seq::<u8>::empty());
    } else {
        lemma_digits_value_bound(name, k - 1);
        assert(name.subrange(0, k).drop_last() =~= name.subrange(0, k - 1));
        assert(name.subrange(0, k).last() == name[k - 1]);
        assert(is_ascii_digit(name[k - 1]));
    }
}

proof fn lemma_valid_k_is_digit_run(name: Seq<u8>, dp: int, k: int)
    requires
        0 <= dp <= name.len(),
        digits_before(name, dp),
        dp == name.len() || !is_ascii_digit(name[dp]),
        valid_migration_name(name, k),
    ensures
        k == dp,
{
    if k < dp {
        assert(is_ascii_digit(name[k]));
    }
    if k > dp {
        assert(is_ascii_digit(name[dp]));
    }
}

/// Read the version number out of a migration filename, given as bytes.
///
/// Returns the value of the digit run before the first underscore exactly
/// when the name is well-formed — digits, underscore, description, `.sql` —
/// and `None` otherwise.
pub fn parse_migration_version(name: &Vec<u8>) -> (r: Option<u64>)
    ensures
        r matches Some(v) ==> exists|k: int|
            #[trigger] valid_migration_name(name@, k) && v == digits_value(name@.subrange(0, k)),
        r is None ==> forall|k: int| !valid_migration_name(name@, k),
{
    let n: usize = name.len();
    let mut dp: usize = 0;
    while dp < n && 48 <= name[dp] && name[dp] <= 57
        invariant
            dp <= n,
            n == name@.len(),
            digits_before(name@, dp as int),
        decreases n - dp,
    {
        dp = dp + 1;
    }
    if dp == 0 {
        proof {
            assert forall|k: int| !valid_migration_name(name@, k) by {
                if valid_migration_name(name@, k) {
                    lemma_valid_k_is_digit_run(name@, dp as int, k);
                }
            }
        }
        return None;
    }
    if dp >= n {
        proof {
            assert forall|k: int| !valid_migration_name(name@, k) by {
                if valid_migration_name(name@, k) {
                    lemma_valid_k_is_digit_run(name@, dp as int, k);
                }
            }
        }
        return None;
    }
    if name[dp] != 95 {
        proof {
            assert forall|k: int| !valid_migration_name(name@, k) by {
                if valid_migration_name(name@, k) {
                    lemma_valid_k_is_digit_run(name@, dp as int, k);
                }
            }
        }
        return None;
    }
    if dp > 19 {
        proof {
            assert forall|k: int| !valid_migration_name(name@, k) by {
                if valid_migration_name(name@, k) {
                    lemma_valid_k_is_digit_run(name@, dp as int, k);
                }
            }
        }
        return None;
    }
    if n < dp + 5 {
        proof {
            assert forall|k: int| !valid_migration_name(name@, k) by {
                if valid_migration_name(name@, k) {
                    lemma_valid_k_is_digit_run(name@, dp as int, k);
                }
            }
        }
        return None;
    }
    if !(name[n - 4] == 46 && name[n - 3] == 115 && name[n - 2] == 113 && name[n - 1] == 108) {
        return None;
    }
    let mut acc: u64 = 0;
    let mut i: usize = 0;
    while i < dp
        invariant
            i <= dp,
            dp <= 19,
            dp < n,
            n == name@.len(),
            digits_before(name@, dp as int),
            acc == digits_value(name@.subrange(0, i as int)),
        decreases dp - i,
    {
        proof {
            lemma_digits_value_bound(name@, i as int);
            lemma_pow10_mono(i as nat, 18);
            reveal_with_fuel(pow10, 19);
            assert(pow10(18) == 1000000000000000000);
            assert(is_ascii_digit(name@[i as int]));
        }
        let d: u8 = name[i] - 48;
        acc = acc * 10 + d as u64;
        proof {
            assert(name@.subrange(0, i + 1).drop_last() =~= name@.subrange(0, i as int));
            assert(name@.subrange(0, i + 1).last() == name@[i as int]);
        }
        i = i + 1;
    }
    proof {
        assert(valid_migration_name(name@, dp as int));
    }
    Some(acc)
}

/// A sequence is in strictly ascending order.
pub open spec fn strictly_ascending(s: Seq<u64>) -> bool {
    forall|i: int, j: int| 0 <= i < j < s.len() ==> s[i] < s[j]
}

/// The recorded history `applied` is an exact prefix of the set: every
/// applied version is the set's version at the same position. This is what
/// rules out gaps.
pub open spec fn plan_accepted(set: Seq<u64>, applied: Seq<u64>) -> bool {
    &&& applied.len() <= set.len()
    &&& forall|i: int| 0 <= i < applied.len() ==> applied[i] == set[i]
}

/// The plan for a run: the suffix of the set past the recorded history.
pub open spec fn plan_spec(set: Seq<u64>, applied: Seq<u64>) -> Seq<u64> {
    set.skip(applied.len() as int)
}

proof fn lemma_chain(s: Seq<u64>, i: int, j: int)
    requires
        forall|m: int| 0 <= m < s.len() - 1 ==> #[trigger] s[m] < s[m + 1],
        0 <= i < j < s.len(),
    ensures
        s[i] < s[j],
    decreases j - i,
{
    if i + 1 < j {
        lemma_chain(s, i, j - 1);
    }
}

/// The migration set: every migration's version, in strictly ascending
/// order. Mirrors a migrations directory whose scripts have been ordered by
/// their embedded version numbers.
#[derive(Debug)]
pub struct MigrationSet {
    versions: Vec<u64>,
}

impl View for MigrationSet {
    type V = Seq<u64>;

    closed spec fn view(&self) -> Seq<u64> {
        self.versions@
    }
}

impl MigrationSet {
    /// The set is well-formed: strictly ascending, hence duplicate-free.
    pub open spec fn wf(&self) -> bool {
        strictly_ascending(self@)
    }

    /// Order-check a list of versions into a migration set. Accepts exactly
    /// the strictly ascending lists; a disordered or duplicated version is
    /// a malformed migration set.
    pub fn new(versions: Vec<u64>) -> (r: Result<MigrationSet, DatabaseError>)
        ensures
            r matches Ok(ms) ==> ms.wf() && ms@ == versions@ && strictly_ascending(versions@),
            r matches Err(e) ==> !strictly_ascending(versions@) && e is Migration,
    {
        let n: usize = versions.len();
        let mut i: usize = 1;
        while i < n
            invariant
                1 <= i || n == 0,
                i <= n || n == 0,
                n == versions@.len(),
                forall|m: int| 0 <= m < i - 1 ==> #[trigger] versions@[m] < versions@[m + 1],
            decreases n - i,
        {
            if versions[i - 1] >= versions[i] {
                return Err(DatabaseError::Migration);
            }
            i = i + 1;
        }
        proof {
            assert forall|a: int, b: int|
                0 <= a < b < versions@.len() implies versions@[a] < versions@[b] by {
                lemma_chain(versions@, a, b);
            }
        }
        Ok(MigrationSet { versions })
    }

    /// How many migrations the set holds.
    pub fn len(&self) -> (r: usize)
        ensures
            r == self@.len(),
    {
        self.versions.len()
    }

    /// The versions, in their ascending order.
    pub fn versions(&self) -> (r: &Vec<u64>)
        ensures
            r@ == self@,
    {
        &self.versions
    }

    /// Compute the plan for one run against a recorded history.
    ///
    /// Accepts exactly the histories that are a prefix of the set and
    /// returns the remaining suffix: the pending migrations, in ascending
    /// order, which applied after the history reconstitute the whole set. A
    /// history that is not a prefix — a gap, a foreign version, an
    /// out-of-order record — is a migration failure.
    pub fn pending(&self, applied: &Vec<u64>) -> (r: Result<Vec<u64>, DatabaseError>)
        requires
            self.wf(),
        ensures
            r matches Ok(p) ==> {
                &&& plan_accepted(self@, applied@)
                &&& p@ == plan_spec(self@, applied@)
                &&& self@ == applied@ + p@
                &&& strictly_ascending(p@)
            },
            r matches Err(e) ==> !plan_accepted(self@, applied@) && e is Migration,
    {
        let n: usize = self.versions.len();
        let m: usize = applied.len();
        if m > n {
            return Err(DatabaseError::Migration);
        }
        let mut i: usize = 0;
        while i < m
            invariant
                i <= m,
                m <= n,
                n == self@.len(),
                m == applied@.len(),
                forall|j: int| 0 <= j < i ==> applied@[j] == self@[j],
            decreases m - i,
        {
            if applied[i] != self.versions[i] {
                return Err(DatabaseError::Migration);
            }
            i = i + 1;
        }
        let mut p: Vec<u64> = Vec::new();
        let mut i: usize = m;
        while i < n
            invariant
                m <= i <= n,
                n == self@.len(),
                p@ == self@.subrange(m as int, i as int),
            decreases n - i,
        {
            let v: u64 = self.versions[i];
            p.push(v);
            proof {
                assert(p@ =~= self@.subrange(m as int, i + 1));
            }
            i = i + 1;
        }
        proof {
            assert(p@ =~= plan_spec(self@, applied@));
            assert(self@ =~= applied@ + p@);
            assert forall|a: int, b: int| 0 <= a < b < p@.len() implies p@[a] < p@[b] by {
                assert(p@[a] == self@[m + a]);
                assert(p@[b] == self@[m + b]);
            }
        }
        Ok(p)
    }
}

/// Law: a fresh database — no migration yet applied — receives the entire
/// migration set as its plan, in the set's own ascending order.
pub proof fn lemma_fresh_database_applies_all(set: Seq<u64>)
    ensures
        plan_accepted(set, Seq::<u64>::empty()),
        plan_spec(set, Seq::<u64>::empty()) == set,
{
    assert(plan_spec(set, Seq::<u64>::empty()) =~= set);
}

/// Law: bootstrapping an already fully migrated database is idempotent: its
/// history is the whole set, the plan is empty, and the run applies
/// nothing.
pub proof fn lemma_migrated_database_applies_none(set: Seq<u64>)
    ensures
        plan_accepted(set, set),
        plan_spec(set, set) == Seq::<u64>::empty(),
{
    assert(plan_spec(set, set) =~= Seq::<u64>::empty());
}

/// Law: applying any leading portion of the plan leaves the history
/// gapless and ordered — it is still a prefix of the set, and still
/// strictly ascending. A run interrupted between two migrations therefore
/// never leaves an unapplied lower version under an applied higher one.
pub proof fn lemma_plan_prefix_stays_gapless(set: Seq<u64>, applied: Seq<u64>, m: int)
    requires
        strictly_ascending(set),
        plan_accepted(set, applied),
        0 <= m <= plan_spec(set, applied).len(),
    ensures
        plan_accepted(set, applied + plan_spec(set, applied).take(m)),
        strictly_ascending(applied + plan_spec(set, applied).take(m)),
{
    let h = applied + plan_spec(set, applied).take(m);
    assert forall|i: int| 0 <= i < h.len() implies h[i] == set[i] by {
        if i < applied.len() {
        } else {
            assert(h[i] == plan_spec(set, applied).take(m)[i - applied.len()]);
        }
    }
    assert forall|i: int, j: int| 0 <= i < j < h.len() implies h[i] < h[j] by {
        assert(h[i] == set[i]);
        assert(h[j] == set[j]);
    }
}

} // verus!
