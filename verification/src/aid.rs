use crate::text::{
    compare_text, debug_name, name_debug_ok, lemma_lex_antisymmetric, lemma_lex_transitive, lemma_lex_zero, lex_sign,
};
use crate::uuid_text::{fresh_uuid, hyphenated, is_v4, uuid_to_string};
use core::cmp::Ordering;
use vstd::std_specs::cmp::{PartialEqSpec, PartialOrdSpec};
use vstd::prelude::*;

verus! {

/// The identity of an actor: the pair of UUIDs by which ids are compared
/// for equality and hashed.
#[derive(Debug, Clone, Copy, PartialEq, Eq, Structural, Hash)]
pub struct AidKey {
    pub uuid: u128,
    pub system_uuid: u128,
}

/// An actor id: a random UUID, the UUID of the actor system that made it,
/// and an optional name.
///
/// Two ids are equal when both UUIDs are equal. Ids are ordered by name
/// (unnamed ids first, names lexicographically), then by system UUID, then
/// by UUID; the derived `Ord` below follows the same field order.
#[derive(Clone, Ord)]
pub struct Aid {
    name: Option<String>,
    system_uuid: u128,
    uuid: u128,
}

/// The mathematical value of an actor id.
pub struct AidView {
    pub uuid: u128,
    pub system_uuid: u128,
    pub name: Option<Seq<char>>,
}

pub open spec fn name_view(name: Option<String>) -> Option<Seq<char>> {
    match name {
        Some(s) => Some(s@),
        None => None,
    }
}

impl View for Aid {
    type V = AidView;

    closed spec fn view(&self) -> AidView {
        AidView { uuid: self.uuid, system_uuid: self.system_uuid, name: name_view(self.name) }
    }
}

/// The ordering of two 128-bit integers.
pub open spec fn int_order(a: u128, b: u128) -> Ordering {
    if a < b {
        Ordering::Less
    } else if a == b {
        Ordering::Equal
    } else {
        Ordering::Greater
    }
}

/// The ordering named by a sign: negative, zero or positive.
pub open spec fn sign_order(sign: int) -> Ordering {
    if sign < 0 {
        Ordering::Less
    } else if sign == 0 {
        Ordering::Equal
    } else {
        Ordering::Greater
    }
}

/// The order of actor ids: unnamed before named, names lexicographically,
/// then system UUID, then UUID.
pub open spec fn aid_order(a: AidView, b: AidView) -> Ordering {
    match (a.name, b.name) {
        (None, Some(_)) => Ordering::Less,
        (Some(_), None) => Ordering::Greater,
        (Some(x), Some(y)) if x != y => sign_order(lex_sign(x, y)),
        _ => match int_order(a.system_uuid, b.system_uuid) {
            Ordering::Equal => int_order(a.uuid, b.uuid),
            o => o,
        },
    }
}

/// The text an actor id displays: `name:uuid`, or the UUID alone.
pub open spec fn display_text(a: AidView) -> Seq<char> {
    match a.name {
        Some(n) => n + seq![':'] + hyphenated(a.uuid),
        None => hyphenated(a.uuid),
    }
}

impl Aid {
    /// A fresh id with a random UUID, in the actor system `system_uuid`.
    pub fn new(name: Option<String>, system_uuid: u128) -> (r: Aid)
        ensures
            r@.name == name_view(name),
            r@.system_uuid == system_uuid,
            is_v4(r@.uuid),
    {
        Aid { uuid: fresh_uuid(), system_uuid, name }
    }

    /// An id made of given parts.
    pub fn from_parts(name: Option<String>, system_uuid: u128, uuid: u128) -> (r: Aid)
        ensures
            r@ == (AidView { uuid, system_uuid, name: name_view(name) }),
    {
        Aid { uuid, system_uuid, name }
    }

    pub fn uuid(&self) -> (r: u128)
        ensures
            r == self@.uuid,
    {
        self.uuid
    }

    pub fn system_uuid(&self) -> (r: u128)
        ensures
            r == self@.system_uuid,
    {
        self.system_uuid
    }

    pub fn name(&self) -> (r: &Option<String>)
        ensures
            name_view(*r) == self@.name,
    {
        &self.name
    }

    /// The identity by which ids are compared and hashed.
    pub fn key(&self) -> (r: AidKey)
        ensures
            r == (AidKey { uuid: self@.uuid, system_uuid: self@.system_uuid }),
    {
        AidKey { uuid: self.uuid, system_uuid: self.system_uuid }
    }

    /// Whether two ids denote the same actor: both UUIDs are equal.
    pub fn same(&self, other: &Aid) -> (r: bool)
        ensures
            r == (self@.uuid == other@.uuid && self@.system_uuid == other@.system_uuid),
    {
        self.uuid == other.uuid && self.system_uuid == other.system_uuid
    }

    /// The order of two ids: unnamed before named, names lexicographically,
    /// then system UUID, then UUID.
    pub fn compare(&self, other: &Aid) -> (r: Ordering)
        ensures
            r == aid_order(self@, other@),
    {
        match (&self.name, &other.name) {
            (None, Some(_)) => Ordering::Less,
            (Some(_), None) => Ordering::Greater,
            (Some(x), Some(y)) => {
                let by_name = compare_text(x, y);
                proof {
                    lemma_lex_zero(x@, y@);
                }
                if by_name < 0 {
                    Ordering::Less
                } else if by_name > 0 {
                    Ordering::Greater
                } else {
                    self.compare_uuids(other)
                }
            },
            (None, None) => self.compare_uuids(other),
        }
    }

    fn compare_uuids(&self, other: &Aid) -> (r: Ordering)
        ensures
            r == (match int_order(self@.system_uuid, other@.system_uuid) {
                Ordering::Equal => int_order(self@.uuid, other@.uuid),
                o => o,
            }),
    {
        if self.system_uuid < other.system_uuid {
            Ordering::Less
        } else if self.system_uuid > other.system_uuid {
            Ordering::Greater
        } else if self.uuid < other.uuid {
            Ordering::Less
        } else if self.uuid == other.uuid {
            Ordering::Equal
        } else {
            Ordering::Greater
        }
    }

    /// The debugging text of the id:
    /// `Aid{id: <uuid>, system_uuid: <system uuid>, name: <name's Debug>}`.
    pub fn debug_text(&self) -> (r: String)
        ensures
            exists|n: Seq<char>|
                name_debug_ok(self@.name, n) && r@ == "Aid{id: "@ + hyphenated(self@.uuid)
                    + ", system_uuid: "@ + hyphenated(self@.system_uuid) + ", name: "@ + n + "}"@,
    {
        let mut t = String::from_str("Aid{id: ");
        let id = uuid_to_string(self.uuid);
        t.append(id.as_str());
        t.append(", system_uuid: ");
        let sys = uuid_to_string(self.system_uuid);
        t.append(sys.as_str());
        t.append(", name: ");
        let n = debug_name(&self.name);
        t.append(n.as_str());
        t.append("}");
        t
    }

    /// The displayed text of the id: `name:uuid`, or the UUID alone, with the
    /// UUID in hyphenated lowercase form.
    pub fn to_string(&self) -> (r: String)
        ensures
            r@ == display_text(self@),
    {
        let id = uuid_to_string(self.uuid);
        match &self.name {
            Some(n) => {
                let mut t = n.clone();
                t.append(":");
                t.append(id.as_str());
                proof {
                    reveal_strlit(":");
                }
                t
            },
            None => id,
        }
    }
}

/// The ordering seen from the other side.
pub open spec fn flip(o: Ordering) -> Ordering {
    match o {
        Ordering::Less => Ordering::Greater,
        Ordering::Equal => Ordering::Equal,
        Ordering::Greater => Ordering::Less,
    }
}

/// The order of actor ids is a total order: comparing the other way round
/// gives the flipped answer, `Equal` holds exactly between ids with the same
/// name and UUIDs, and `Less` is transitive.
pub proof fn lemma_aid_order_total(a: AidView, b: AidView, c: AidView)
    ensures
        aid_order(a, b) == flip(aid_order(b, a)),
        (aid_order(a, b) == Ordering::Equal) <==> (a.name == b.name && a.system_uuid
            == b.system_uuid && a.uuid == b.uuid),
        aid_order(a, b) == Ordering::Less && aid_order(b, c) == Ordering::Less ==> aid_order(a, c)
            == Ordering::Less,
{
    match (a.name, b.name) {
        (Some(x), Some(y)) => {
            lemma_lex_zero(x, y);
            lemma_lex_antisymmetric(x, y);
        },
        _ => {},
    }
    if aid_order(a, b) == Ordering::Less && aid_order(b, c) == Ordering::Less {
        match (a.name, b.name, c.name) {
            (Some(x), Some(y), Some(z)) => {
                lemma_lex_zero(x, y);
                lemma_lex_zero(y, z);
                lemma_lex_zero(x, z);
                if x != y && y != z {
                    lemma_lex_transitive(x, y, z);
                }
            },
            _ => {},
        }
    }
}

#[verifier::external_type_specification]
#[verifier::external_body]
pub struct ExFormatter<'a>(core::fmt::Formatter<'a>);

#[verifier::external_type_specification]
#[verifier::external_body]
pub struct ExFmtError(core::fmt::Error);

/// Calls `Formatter::write_str`, which hands `t` to the formatter's output.
/// Whether the output accepts it is up to the writer behind the formatter,
/// so the contract claims nothing of the result.
#[verifier::external_body]
fn write_text(f: &mut core::fmt::Formatter<'_>, t: &str) -> core::fmt::Result {
    f.write_str(t)
}

impl core::fmt::Debug for Aid {
    /// Writes the id's debugging text (`debug_text`).
    fn fmt(&self, f: &mut core::fmt::Formatter<'_>) -> core::fmt::Result {
        let t = self.debug_text();
        write_text(f, t.as_str())
    }
}

/// Calls `Hash::hash` on the pair of UUIDs, which feeds the id's UUID and
/// then its system UUID to the hasher, as equality compares them. What the
/// hasher makes of them is its own affair, so nothing is claimed.
#[verifier::external_body]
fn hash_identity<H: core::hash::Hasher>(uuid: u128, system_uuid: u128, state: &mut H) {
    core::hash::Hash::hash(&(uuid, system_uuid), state)
}

impl core::hash::Hash for Aid {
    /// Hashes the two UUIDs that equality compares; the name is left out.
    fn hash<H: core::hash::Hasher>(&self, state: &mut H) {
        hash_identity(self.uuid, self.system_uuid, state)
    }
}

/// Comparing two ids always gives an answer; the other way round it gives
/// the flipped answer; and it gives `Equal` exactly for equal ids (same
/// UUIDs) that also carry the same name. So the derived `cmp`, which follows
/// the same order, never meets an incomparable pair.
pub proof fn lemma_aid_partial_cmp(a: Aid, b: Aid)
    ensures
        PartialOrdSpec::partial_cmp_spec(&a, &b) is Some,
        PartialOrdSpec::partial_cmp_spec(&a, &b) == Some(
            flip(PartialOrdSpec::partial_cmp_spec(&b, &a)->0),
        ),
        (PartialOrdSpec::partial_cmp_spec(&a, &b) == Some(Ordering::Equal)) <==> (
        PartialEqSpec::eq_spec(&a, &b) && a@.name == b@.name),
{
    lemma_aid_order_total(a@, b@, b@);
}

impl PartialEq for Aid {
    fn eq(&self, other: &Self) -> (r: bool) {
        self.uuid == other.uuid && self.system_uuid == other.system_uuid
    }
}

impl vstd::std_specs::cmp::PartialEqSpecImpl for Aid {
    open spec fn obeys_eq_spec() -> bool {
        true
    }

    open spec fn eq_spec(&self, other: &Aid) -> bool {
        self@.uuid == other@.uuid && self@.system_uuid == other@.system_uuid
    }
}

impl PartialOrd for Aid {
    fn partial_cmp(&self, other: &Self) -> (r: Option<Ordering>) {
        Some(self.compare(other))
    }
}

impl vstd::std_specs::cmp::PartialOrdSpecImpl for Aid {
    open spec fn obeys_partial_cmp_spec() -> bool {
        true
    }

    open spec fn partial_cmp_spec(&self, other: &Aid) -> Option<Ordering> {
        Some(aid_order(self@, other@))
    }
}

impl Eq for Aid {

}

} // verus!
