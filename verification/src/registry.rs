//! The register of the identifiers used in a package, and the generation of
//! fresh identifiers.
//!
//! Generated identifiers take the form `_` + prefix + number, with the least
//! number whose identifier is not yet registered.

use vstd::prelude::*;
use vstd::multiset::Multiset;
use vstd::set_lib::{set_int_range, lemma_int_range, lemma_map_size, lemma_len_subset};
use crate::error::MsiBuilderError;
use crate::identifier::{Identifier, is_identifier_char, valid_identifier};
use crate::tables::dao::{DaoContainer, MsiBuilderListEntry, ToUniqueMsiIdentifier, any_conflict, conflict_free};
use crate::text::{decimal, lemma_decimal_digits, lemma_decimal_injective, lemma_decimal_len_usize, owned, push_char, push_decimal};

verus! {

/// The identifiers of a register, as character sequences.
pub open spec fn ids_view(ids: Seq<Identifier>) -> Seq<Seq<char>> {
    ids.map_values(|i: Identifier| i@)
}

/// Whether `x` is registered in `ids`.
pub open spec fn registered(ids: Seq<Identifier>, x: Seq<char>) -> bool {
    ids_view(ids).contains(x)
}

/// The identifier generated for `prefix` and the number `n`.
pub open spec fn generated_id(prefix: Seq<char>, n: nat) -> Seq<char> {
    seq!['_'] + prefix + decimal(n)
}

/// A prefix for generated identifiers: identifier characters only.
pub open spec fn valid_prefix(prefix: Seq<char>) -> bool {
    forall|i: int| 0 <= i < prefix.len() ==> is_identifier_char(#[trigger] prefix[i])
}

/// The identifier that `generate_id` gives: the one for the least number
/// whose identifier is not registered in `ids`.
pub open spec fn is_first_free(ids: Seq<Seq<char>>, prefix: Seq<char>, x: Seq<char>) -> bool {
    exists|n: nat|
        x == generated_id(prefix, n) && !ids.contains(generated_id(prefix, n))
            && forall|k: nat| k < n ==> ids.contains(#[trigger] generated_id(prefix, k))
}

/// The identifier that `generate_id` gives for `prefix` when `ids` are
/// registered.
pub open spec fn first_free_id(ids: Seq<Seq<char>>, prefix: Seq<char>) -> Seq<char> {
    choose|x: Seq<char>| is_first_free(ids, prefix, x)
}

/// There is one first-free identifier for a prefix.
pub proof fn lemma_first_free_unique(ids: Seq<Seq<char>>, prefix: Seq<char>, x: Seq<char>)
    requires
        is_first_free(ids, prefix, x),
    ensures
        first_free_id(ids, prefix) == x,
{
    let y = first_free_id(ids, prefix);
    assert(is_first_free(ids, prefix, y));
    let nx = choose|n: nat| x == generated_id(prefix, n) && !ids.contains(generated_id(prefix, n))
        && forall|k: nat| k < n ==> ids.contains(#[trigger] generated_id(prefix, k));
    let ny = choose|n: nat| y == generated_id(prefix, n) && !ids.contains(generated_id(prefix, n))
        && forall|k: nat| k < n ==> ids.contains(#[trigger] generated_id(prefix, k));
    if nx < ny {
        assert(ids.contains(generated_id(prefix, nx)));
    } else if ny < nx {
        assert(ids.contains(generated_id(prefix, ny)));
    }
}

/// Different numbers give different identifiers.
pub proof fn lemma_generated_id_injective(prefix: Seq<char>, a: nat, b: nat)
    requires
        generated_id(prefix, a) == generated_id(prefix, b),
    ensures
        a == b,
{
    let k = 1 + prefix.len();
    assert(generated_id(prefix, a).skip(k as int) =~= decimal(a));
    assert(generated_id(prefix, b).skip(k as int) =~= decimal(b));
    lemma_decimal_injective(a, b);
}

/// A generated identifier follows the identifier rule.
pub proof fn lemma_generated_id_valid(prefix: Seq<char>, n: nat)
    requires
        valid_prefix(prefix),
    ensures
        valid_identifier(generated_id(prefix, n)),
{
    lemma_decimal_digits(n);
    let s = generated_id(prefix, n);
    assert forall|i: int| 0 <= i < s.len() implies is_identifier_char(#[trigger] s[i]) by {
        if i >= 1 + prefix.len() {
            assert(s[i] == decimal(n)[i - 1 - prefix.len()]);
        } else if i >= 1 {
            assert(s[i] == prefix[i - 1]);
        }
    }
}

/// When the identifiers for the numbers `0..=n` are all registered, the
/// register holds at least `n + 1` entries.
proof fn lemma_registered_run(ids: Seq<Identifier>, prefix: Seq<char>, n: nat)
    requires
        forall|k: nat| k <= n ==> registered(ids, #[trigger] generated_id(prefix, k)),
    ensures
        n + 1 <= ids.len(),
{
    let view = ids_view(ids);
    let top: int = n as int + 1;
    let dom = set_int_range(0, top);
    let f = |k: int| generated_id(prefix, k as nat);
    lemma_int_range(0, top);
    assert forall|a: int, b: int| dom.contains(a) && dom.contains(b) && #[trigger] f(a) == #[trigger] f(b) implies a == b by {
        lemma_generated_id_injective(prefix, a as nat, b as nat);
    }
    let img = dom.map(f);
    lemma_map_size(dom, img, f);
    assert forall|x: Seq<char>| img.contains(x) implies view.to_set().contains(x) by {
        let k = choose|k: int| dom.contains(k) && f(k) == x;
        assert(registered(ids, generated_id(prefix, k as nat)));
    }
    view.lemma_cardinality_of_set();
    lemma_len_subset(img, view.to_set());
}

/// Whether `x` is registered in `ids`.
pub fn is_registered(ids: &Vec<Identifier>, x: &str) -> (r: bool)
    ensures
        r == registered(ids@, x@),
{
    let mut i: usize = 0;
    while i < ids.len()
        invariant
            i <= ids.len(),
            forall|k: int| 0 <= k < i ==> (#[trigger] ids@[k])@ != x@,
        decreases ids.len() - i,
    {
        if crate::text::str_eq(ids[i].as_str(), x) {
            assert(ids_view(ids@)[i as int] == x@);
            return true;
        }
        i = i + 1;
    }
    assert forall|k: int| 0 <= k < ids_view(ids@).len() implies ids_view(ids@)[k] != x@ by {
        assert(ids_view(ids@)[k] == ids@[k]@);
    }
    false
}

fn generated(prefix: &str, n: usize) -> (r: String)
    ensures
        r@ == generated_id(prefix@, n as nat),
{
    let mut s = String::new();
    push_char(&mut s, '_');
    let mut i: usize = 0;
    let len = prefix.unicode_len();
    while i < len
        invariant
            len == prefix@.len(),
            i <= len,
            s@ == seq!['_'] + prefix@.take(i as int),
        decreases len - i,
    {
        push_char(&mut s, prefix.get_char(i));
        assert(seq!['_'] + prefix@.take(i + 1) =~= (seq!['_'] + prefix@.take(i as int)).push(prefix@[i as int]));
        i = i + 1;
    }
    assert(prefix@.take(len as int) =~= prefix@);
    push_decimal(&mut s, n);
    s
}

/// The identifier `_` + `prefix` + `n` for the least `n` whose identifier is
/// not registered in `ids`.
pub fn generate_id(ids: &Vec<Identifier>, prefix: &str) -> (r: Identifier)
    requires
        valid_prefix(prefix@),
    ensures
        is_first_free(ids_view(ids@), prefix@, r@),
        !registered(ids@, r@),
        r@.len() > 0 && r@[0] == '_',
        r@.len() <= prefix@.len() + 21,
{
    let mut n: usize = 0;
    loop
        invariant
            valid_prefix(prefix@),
            n <= ids.len(),
            forall|k: nat| k < n ==> registered(ids@, #[trigger] generated_id(prefix@, k)),
        decreases ids.len() - n,
    {
        let candidate = generated(prefix, n);
        if !is_registered(ids, candidate.as_str()) {
            proof {
                lemma_generated_id_valid(prefix@, n as nat);
                lemma_decimal_len_usize(n);
            }
            return Identifier::from_valid(candidate);
        }
        proof {
            lemma_registered_run(ids@, prefix@, n as nat);
        }
        n = n + 1;
    }
}

/// The unique identifiers of the entries of `s`, each counted as often as
/// it occurs.
pub open spec fn id_multiset<D: ToUniqueMsiIdentifier>(s: Seq<D>) -> Multiset<Seq<char>>
    decreases s.len(),
{
    if s.len() == 0 {
        Multiset::empty()
    } else {
        let rest = id_multiset(s.drop_last());
        match s.last().unique_id_spec() {
            Some(x) => rest.insert(x),
            None => rest,
        }
    }
}

/// An entry's unique identifier is counted.
pub proof fn lemma_id_multiset_has<D: ToUniqueMsiIdentifier>(s: Seq<D>, i: int)
    requires
        0 <= i < s.len(),
        s[i].unique_id_spec() is Some,
    ensures
        id_multiset(s).count(s[i].unique_id_spec().unwrap()) > 0,
    decreases s.len(),
{
    if i < s.len() - 1 {
        lemma_id_multiset_has(s.drop_last(), i);
        assert(s.drop_last()[i] == s[i]);
    }
}

/// Appending an entry adds its unique identifier, if it has one.
pub proof fn lemma_id_multiset_push<D: ToUniqueMsiIdentifier>(s: Seq<D>, d: D)
    ensures
        id_multiset(s.push(d)) == match d.unique_id_spec() {
            Some(x) => id_multiset(s).insert(x),
            None => id_multiset(s),
        },
{
    assert(s.push(d).drop_last() =~= s);
}

/// Adding an entry that conflicts with no entry of a table keeps the table
/// free of conflicts.
pub proof fn lemma_push_keeps_conflict_free<D: MsiBuilderListEntry>(s: Seq<D>, d: D)
    requires
        conflict_free(s),
        !any_conflict(s, d),
    ensures
        conflict_free(s.push(d)),
{
    let t = s.push(d);
    assert forall|i: int, j: int| 0 <= i < j < t.len() implies !#[trigger] t[i].conflicts_spec(&#[trigger] t[j]) by {
        if j == s.len() {
            assert(t[i] == s[i]);
            assert(!s[i].conflicts_spec(&d));
        } else {
            assert(t[i] == s[i] && t[j] == s[j]);
        }
    }
}

/// What adding `dao` to a table does, given whether it was refused: the
/// entries gain `dao` exactly on success, and fail with `EntryConflict`
/// exactly when `dao` conflicts with an entry.
pub open spec fn plain_add_outcome<D: MsiBuilderListEntry>(
    old_entries: Seq<D>,
    new_entries: Seq<D>,
    dao: D,
    r: Result<(), MsiBuilderError>,
) -> bool {
    &&& r is Ok <==> !any_conflict(old_entries, dao)
    &&& r is Ok ==> new_entries == old_entries.push(dao)
    &&& r matches Err(e) ==> e is EntryConflict && new_entries == old_entries
}

/// What registering the unique key of `dao` and adding `dao` to a table
/// does: a key that is already registered is refused with
/// `IdentifierConflict` and nothing changes; a fresh key is registered, and
/// stays registered even when `dao` is then refused for a conflict.
pub open spec fn add_outcome<D: MsiBuilderListEntry + ToUniqueMsiIdentifier>(
    old_ids: Seq<Seq<char>>,
    new_ids: Seq<Seq<char>>,
    old_entries: Seq<D>,
    new_entries: Seq<D>,
    dao: D,
    r: Result<(), MsiBuilderError>,
) -> bool {
    match dao.unique_id_spec() {
        Some(x) => if old_ids.contains(x) {
            &&& r matches Err(MsiBuilderError::IdentifierConflict { identifier }) && identifier@ == x
            &&& new_ids == old_ids
            &&& new_entries == old_entries
        } else {
            &&& new_ids == old_ids.push(x)
            &&& plain_add_outcome(old_entries, new_entries, dao, r)
        },
        None => new_ids == old_ids && plain_add_outcome(old_entries, new_entries, dao, r),
    }
}

/// Registers the unique identifier of `dao`, if it has one, then adds `dao`
/// to `table` unless it conflicts with an entry there.
///
/// An identifier that is already registered is refused with
/// `IdentifierConflict`, and nothing changes. A fresh identifier stays
/// registered even when the entry is then refused for a conflict.
pub fn register_and_add<T: DaoContainer>(ids: &mut Vec<Identifier>, table: &mut T, dao: T::Dao) -> (r: Result<
    (),
    MsiBuilderError,
>) where T::Dao: ToUniqueMsiIdentifier
    ensures
        add_outcome(
            ids_view(old(ids)@),
            ids_view(final(ids)@),
            old(table).entries_spec(),
            final(table).entries_spec(),
            dao,
            r,
        ),
{
    match dao.to_unique_msi_identifier() {
        Some(id) => {
            if is_registered(ids, id.as_str()) {
                return Err(MsiBuilderError::IdentifierConflict { identifier: id });
            }
            ids.push(id);
            assert(ids_view(ids@) =~= ids_view(old(ids)@).push(dao.unique_id_spec().unwrap()));
        },
        None => {},
    }
    table.add(dao)
}

} // verus!
