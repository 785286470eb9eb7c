//! The claims that a token carries: a mapping of names to values that holds
//! each name once and keeps its pairs in the order of their names.

use vstd::prelude::*;
use vstd::string::*;
use crate::decimal::{decimal, decimal_nat, i32_to_decimal, u64_to_decimal};
use crate::models::User;

verus! {

#[verifier::external_type_specification]
#[verifier::external_body]
pub struct ExSystemTime(std::time::SystemTime);

#[verifier::external_type_specification]
#[verifier::external_body]
pub struct ExSystemTimeError(std::time::SystemTimeError);

/// The order of claim names: the order of strings, character by character.
pub open spec fn name_before(a: Seq<char>, b: Seq<char>) -> bool
    decreases a.len(),
{
    if b.len() == 0 {
        false
    } else if a.len() == 0 {
        true
    } else if a[0] == b[0] {
        name_before(a.drop_first(), b.drop_first())
    } else {
        (a[0] as int) < (b[0] as int)
    }
}

/// No name comes before itself.
pub proof fn lemma_name_before_irreflexive(a: Seq<char>)
    ensures
        !name_before(a, a),
    decreases a.len(),
{
    if a.len() > 0 {
        lemma_name_before_irreflexive(a.drop_first());
    }
}

/// The order of names is transitive.
pub proof fn lemma_name_before_transitive(a: Seq<char>, b: Seq<char>, c: Seq<char>)
    requires
        name_before(a, b),
        name_before(b, c),
    ensures
        name_before(a, c),
    decreases a.len(),
{
    if a.len() > 0 && a[0] == b[0] && b[0] == c[0] {
        lemma_name_before_transitive(a.drop_first(), b.drop_first(), c.drop_first());
    }
}

/// Of two different names one comes before the other.
pub proof fn lemma_name_before_total(a: Seq<char>, b: Seq<char>)
    ensures
        name_before(a, b) || a == b || name_before(b, a),
    decreases a.len(),
{
    if a.len() == 0 || b.len() == 0 {
        if a.len() == 0 && b.len() == 0 {
            assert(a =~= b);
        }
    } else if a[0] == b[0] {
        lemma_name_before_total(a.drop_first(), b.drop_first());
        if a.drop_first() == b.drop_first() {
            assert(a =~= seq![a[0]] + a.drop_first());
            assert(b =~= seq![b[0]] + b.drop_first());
        }
    }
}

/// Each name comes before every later one, so that no name occurs twice.
pub open spec fn ascending(names: Seq<Seq<char>>) -> bool {
    forall|i: int, j: int|
        0 <= i < j < names.len() ==> name_before(#[trigger] names[i], #[trigger] names[j])
}

/// The names of a list of pairs, in the order of the list.
pub open spec fn names_of(entries: Seq<(String, String)>) -> Seq<Seq<char>> {
    Seq::new(entries.len(), |i: int| entries[i].0@)
}

/// The mapping that a list of pairs with ascending names stands for.
pub open spec fn entries_map(entries: Seq<(String, String)>) -> Map<Seq<char>, Seq<char>> {
    Map::new(
        |name: Seq<char>| exists|i: int| 0 <= i < entries.len() && #[trigger] names_of(entries)[i] == name,
        |name: Seq<char>|
            entries[choose|i: int| 0 <= i < entries.len() && #[trigger] names_of(entries)[i] == name].1@,
    )
}

/// In a list with ascending names, the mapping holds each pair of the list.
proof fn lemma_entries_map_holds(entries: Seq<(String, String)>, k: int)
    requires
        ascending(names_of(entries)),
        0 <= k < entries.len(),
    ensures
        entries_map(entries).dom().contains(entries[k].0@),
        entries_map(entries)[entries[k].0@] == entries[k].1@,
{
    let names = names_of(entries);
    let name = entries[k].0@;
    assert(names[k] == name);
    let c = choose|i: int| 0 <= i < entries.len() && #[trigger] names_of(entries)[i] == name;
    lemma_name_before_irreflexive(name);
    if c < k {
        assert(name_before(names[c], names[k]));
    } else if k < c {
        assert(name_before(names[k], names[c]));
    }
}

/// Whether the name `a` comes before the name `b`.
fn precedes(a: &str, b: &str) -> (before: bool)
    ensures
        before == name_before(a@, b@),
{
    let a_len = a.unicode_len();
    let b_len = b.unicode_len();
    let mut i: usize = 0;
    assert(a@.skip(0) =~= a@ && b@.skip(0) =~= b@);
    while i < a_len && i < b_len
        invariant
            a_len == a@.len(),
            b_len == b@.len(),
            i <= a_len,
            i <= b_len,
            name_before(a@, b@) == name_before(a@.skip(i as int), b@.skip(i as int)),
        decreases a_len - i,
    {
        let x = a.get_char(i);
        let y = b.get_char(i);
        proof {
            assert(a@.skip(i as int)[0] == x && b@.skip(i as int)[0] == y);
            assert(a@.skip(i as int).drop_first() =~= a@.skip(i + 1));
            assert(b@.skip(i as int).drop_first() =~= b@.skip(i + 1));
        }
        if x != y {
            return (x as u32) < (y as u32);
        }
        i += 1;
    }
    i < b_len
}

/// Sets `name` to `value` in a list with ascending names: in place where the
/// name is there, else at the place that keeps the names ascending.
fn insert_entry(entries: &mut Vec<(String, String)>, name: String, value: String)
    requires
        ascending(names_of(old(entries)@)),
    ensures
        ascending(names_of(final(entries)@)),
        entries_map(final(entries)@) == entries_map(old(entries)@).insert(name@, value@),
        entries_map(old(entries)@).dom().contains(name@) ==> names_of(final(entries)@) == names_of(
            old(entries)@,
        ),
        !entries_map(old(entries)@).dom().contains(name@) ==> exists|at: int|
            0 <= at <= old(entries)@.len() && names_of(final(entries)@) == #[trigger] names_of(
                old(entries)@,
            ).insert(at, name@),
{
    let ghost before = entries@;
    let ghost names = names_of(before);
    let mut at: usize = 0;
    while at < entries.len() && precedes(entries[at].0.as_str(), name.as_str())
        invariant
            entries@ == before,
            at <= entries.len(),
            forall|i: int| 0 <= i < at ==> name_before(#[trigger] names_of(before)[i], name@),
        decreases entries.len() - at,
    {
        at += 1;
    }
    let present = at < entries.len() && !precedes(name.as_str(), entries[at].0.as_str());
    proof {
        lemma_name_before_irreflexive(name@);
        if at < before.len() {
            lemma_name_before_total(names[at as int], name@);
        }
        assert forall|j: int| at <= j < before.len() && !present implies name_before(
            name@,
            #[trigger] names[j],
        ) by {
            if at < j {
                assert(name_before(names[at as int], names[j]));
                lemma_name_before_transitive(name@, names[at as int], names[j]);
            }
        }
        assert forall|k: int| 0 <= k < before.len() implies entries_map(before).dom().contains(
            #[trigger] names[k],
        ) && entries_map(before)[names[k]] == before[k].1@ by {
            lemma_entries_map_holds(before, k);
        }
    }
    if present {
        entries.set(at, (name, value));
        proof {
            let after = entries@;
            assert(names_of(after) =~= names);
            assert forall|k: int| 0 <= k < after.len() implies entries_map(after).dom().contains(
                #[trigger] names_of(after)[k],
            ) && entries_map(after)[names_of(after)[k]] == after[k].1@ by {
                lemma_entries_map_holds(after, k);
            }
            assert(names[at as int] == name@);
            assert(entries_map(after) =~= entries_map(before).insert(name@, value@));
        }
    } else {
        entries.insert(at, (name, value));
        proof {
            let after = entries@;
            before.insert_ensures(at as int, (name, value));
            assert(names_of(after) =~= names.insert(at as int, name@));
            assert forall|i: int, j: int| 0 <= i < j < after.len() implies name_before(
                #[trigger] names_of(after)[i],
                #[trigger] names_of(after)[j],
            ) by {
                if j < at {
                    assert(name_before(names[i], names[j]));
                } else if j == at {
                    assert(name_before(names[i], name@));
                } else if i < at {
                    assert(name_before(names[i], names[j - 1]));
                } else if i == at {
                    assert(name_before(name@, names[j - 1]));
                } else {
                    assert(name_before(names[i - 1], names[j - 1]));
                }
            }
            assert forall|k: int| 0 <= k < after.len() implies entries_map(after).dom().contains(
                #[trigger] names_of(after)[k],
            ) && entries_map(after)[names_of(after)[k]] == after[k].1@ by {
                lemma_entries_map_holds(after, k);
            }
            assert forall|k: int| 0 <= k < before.len() implies names[k] != name@ by {
                if k < at {
                    assert(name_before(names[k], name@));
                } else {
                    assert(name_before(name@, names[k]));
                }
            }
            assert(!entries_map(before).dom().contains(name@));
            assert forall|n: Seq<char>| entries_map(after).dom().contains(n) implies entries_map(
                before,
            ).insert(name@, value@).dom().contains(n) && entries_map(before).insert(
                name@,
                value@,
            )[n] == entries_map(after)[n] by {
                let k = choose|k: int| 0 <= k < after.len() && #[trigger] names_of(after)[k] == n;
                if k < at {
                    assert(names[k] == n);
                } else if k > at {
                    assert(names[k - 1] == n);
                }
            }
            assert forall|n: Seq<char>|
                entries_map(before).insert(name@, value@).dom().contains(
                    n,
                ) implies entries_map(after).dom().contains(n) by {
                if n == name@ {
                    assert(names_of(after)[at as int] == n);
                } else {
                    let k = choose|k: int| 0 <= k < before.len() && #[trigger] names_of(before)[k] == n;
                    if k < at {
                        assert(names_of(after)[k] == n);
                    } else {
                        assert(names_of(after)[k + 1] == n);
                    }
                }
            }
            assert(entries_map(after) =~= entries_map(before).insert(name@, value@));
        }
    }
}

/// A mapping of claim names to claim values, built fresh for each token. It
/// holds each name once, and its pairs come in the order of their names.
#[derive(Debug)]
pub struct Claims {
    entries: Vec<(String, String)>,
}

impl View for Claims {
    type V = Map<Seq<char>, Seq<char>>;

    closed spec fn view(&self) -> Map<Seq<char>, Seq<char>> {
        entries_map(self.entries@)
    }
}

impl Claims {
    #[verifier::type_invariant]
    spec fn names_ascend(self) -> bool {
        ascending(names_of(self.entries@))
    }

    /// The names of the claims, in the order in which the claims are kept.
    pub closed spec fn names(&self) -> Seq<Seq<char>> {
        names_of(self.entries@)
    }

    /// The empty set of claims.
    pub fn new() -> (claims: Claims)
        ensures
            claims@ == Map::<Seq<char>, Seq<char>>::empty(),
            claims.names() == Seq::<Seq<char>>::empty(),
    {
        let claims = Claims { entries: Vec::new() };
        assert(claims@ =~= Map::<Seq<char>, Seq<char>>::empty());
        assert(claims.names() =~= Seq::<Seq<char>>::empty());
        claims
    }

    /// Sets the claim `name` to `value`. An earlier value of the name is
    /// replaced where it stands; a new name takes the place that keeps the
    /// names ascending.
    pub fn insert(&mut self, name: &str, value: String)
        ensures
            final(self)@ == old(self)@.insert(name@, value@),
            ascending(final(self).names()),
            old(self)@.dom().contains(name@) ==> final(self).names() == old(self).names(),
            !old(self)@.dom().contains(name@) ==> exists|at: int|
                0 <= at <= old(self).names().len() && final(self).names() == #[trigger] old(
                    self,
                ).names().insert(at, name@),
    {
        proof {
            use_type_invariant(&*self);
        }
        let mut entries = Vec::new();
        std::mem::swap(&mut entries, &mut self.entries);
        let ghost before = entries@;
        insert_entry(&mut entries, name.to_owned(), value);
        proof {
            if !entries_map(before).dom().contains(name@) {
                let at = choose|at: int|
                    0 <= at <= before.len() && names_of(entries@) == #[trigger] names_of(
                        before,
                    ).insert(at, name@);
                assert(names_of(entries@) == old(self).names().insert(at, name@));
            }
        }
        self.entries = entries;
    }

    /// The claims as pairs of name and value, ascending by name.
    pub fn entries(&self) -> (entries: &Vec<(String, String)>)
        ensures
            ascending(names_of(entries@)),
            names_of(entries@) == self.names(),
            entries_map(entries@) == self@,
    {
        proof {
            use_type_invariant(self);
        }
        &self.entries
    }
}

/// The claims of a token issued at `now` (Unix seconds) to the user `id`:
/// the subject, the time of issue, and the literal lifetime.
pub open spec fn claims_for(id: int, now: nat) -> Map<Seq<char>, Seq<char>> {
    Map::<Seq<char>, Seq<char>>::empty().insert("sub"@, decimal(id)).insert(
        "iat"@,
        decimal_nat(now),
    ).insert("exp"@, "3600"@)
}

/// The names of the claims of every token, in the order in which they are
/// kept and signed.
pub open spec fn claim_names() -> Seq<Seq<char>> {
    seq!["exp"@, "iat"@, "sub"@]
}

/// The system clock could not give the time of issue.
#[derive(Clone, Copy, Debug, PartialEq, Eq)]
pub struct GenerateClaimsError;

/// Builds the claims of a token issued to `user` at `now` (Unix seconds).
pub fn claims_at(user: &User, now: u64) -> (claims: Claims)
    ensures
        claims@ == claims_for(user.id as int, now as nat),
        claims.names() == claim_names(),
{
    let mut claims = Claims::new();
    proof {
        reveal_strlit("sub");
        reveal_strlit("iat");
        reveal_strlit("exp");
        reveal_with_fuel(name_before, 2);
        assert(!name_before("sub"@, "iat"@) && !name_before("sub"@, "exp"@));
        assert(!name_before("iat"@, "exp"@));
        assert("sub"@ != "iat"@ && "sub"@ != "exp"@ && "iat"@ != "exp"@);
    }
    claims.insert("sub", i32_to_decimal(user.id));
    proof {
        let ghost first = claims.names();
        assert(first =~= seq!["sub"@]);
    }
    claims.insert("iat", u64_to_decimal(now));
    proof {
        let ghost second = claims.names();
        assert(second.len() == 2);
        assert(name_before(second[0], second[1]));
        assert(second =~= seq!["iat"@, "sub"@]);
    }
    claims.insert("exp", String::from_str("3600"));
    proof {
        let ghost third = claims.names();
        assert(third.len() == 3);
        assert(name_before(third[0], third[1]) && name_before(third[1], third[2]));
        assert(third =~= claim_names());
    }
    claims
}

/// `SystemTime::now` reads the system clock: nothing is claimed of the result.
pub assume_specification[ std::time::SystemTime::now ]() -> (now: std::time::SystemTime);

/// Calls `SystemTime::duration_since` with the Unix epoch as the earlier
/// time. It fails where `time` lies before the epoch: nothing is claimed of
/// the result.
#[verifier::external_body]
fn since_unix_epoch(time: &std::time::SystemTime) -> (elapsed: Result<
    std::time::Duration,
    std::time::SystemTimeError,
>) {
    time.duration_since(std::time::UNIX_EPOCH)
}

/// `Duration::as_secs` gives the whole seconds of a duration: nothing is
/// claimed of the result.
pub assume_specification[ std::time::Duration::as_secs ](duration: &std::time::Duration) -> (secs:
    u64);

/// Builds the claims of a token issued to `user` now. The time of issue is
/// whatever the system clock says; the call fails where the clock is set
/// before the Unix epoch.
pub fn generate_claims(user: User) -> (res: Result<Claims, GenerateClaimsError>)
    ensures
        res matches Ok(claims) ==> claims.names() == claim_names() && exists|now: u64|
            claims@ == #[trigger] claims_for(user.id as int, now as nat),
{
    let time = std::time::SystemTime::now();
    match since_unix_epoch(&time) {
        Ok(elapsed) => {
            let now = elapsed.as_secs();
            let claims = claims_at(&user, now);
            assert(claims@ == claims_for(user.id as int, now as nat));
            Ok(claims)
        },
        Err(_) => Err(GenerateClaimsError),
    }
}

} // verus!
