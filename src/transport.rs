//! The transport types this library hands to and receives from `ehttp`,
//! and the entity handle of `bevy_ecs` that routes a response back.

use vstd::prelude::*;

verus! {

/// `ehttp::Headers`: an ordered list of name/value pairs; a name may repeat.
#[verifier::external_type_specification]
pub struct ExHeaders(ehttp::Headers);

/// `ehttp::Request`: method, URL, body bytes and headers, all public fields.
#[verifier::external_type_specification]
pub struct ExRequest(ehttp::Request);

/// `ehttp::Response`: final URL, status, headers and the raw body bytes.
#[verifier::external_type_specification]
pub struct ExResponse(ehttp::Response);

/// `bevy_ecs::entity::Entity`: an opaque handle, only carried through.
#[verifier::external_type_specification]
#[verifier::external_body]
pub struct ExEntity(bevy_ecs::entity::Entity);

/// The name/value pairs of a header list, as text.
pub open spec fn header_pairs(h: ehttp::Headers) -> Seq<(Seq<char>, Seq<char>)> {
    h.headers@.map_values(|p: (String, String)| (p.0@, p.1@))
}

/// Relies on `ehttp::Headers::new`: one pair for each given pair, in order.
pub assume_specification[ ehttp::Headers::new ](headers: &[(&str, &str)]) -> (r: ehttp::Headers)
    ensures
        r.headers@.len() == headers@.len(),
        forall|i: int|
            0 <= i < headers@.len() ==> #[trigger] r.headers@[i].0@ == headers@[i].0@
                && r.headers@[i].1@ == headers@[i].1@,
;

/// Relies on the derived `Clone` of `bevy_ecs::entity::Entity`, a `Copy` type.
pub assume_specification[ <bevy_ecs::entity::Entity as Clone>::clone ](e: &bevy_ecs::entity::Entity) -> (r: bevy_ecs::entity::Entity)
    ensures
        r == *e,
;

/// Relies on the derived `Clone` of `ehttp::Headers`: a field-by-field copy.
pub assume_specification[ <ehttp::Headers as Clone>::clone ](h: &ehttp::Headers) -> (r: ehttp::Headers)
    ensures
        r == *h,
;

/// Relies on the derived `Clone` of `ehttp::Request`: a field-by-field copy.
pub assume_specification[ <ehttp::Request as Clone>::clone ](q: &ehttp::Request) -> (r: ehttp::Request)
    ensures
        r == *q,
;

/// Relies on the derived `Clone` of `ehttp::Response`: a field-by-field copy.
pub assume_specification[ <ehttp::Response as Clone>::clone ](q: &ehttp::Response) -> (r: ehttp::Response)
    ensures
        r == *q,
;

/// Relies on `ehttp::Headers::insert`: the pair is appended; an earlier pair
/// with the same name is kept.
#[verifier::external_body]
pub(crate) fn headers_insert(h: &mut ehttp::Headers, name: String, value: String)
    ensures
        final(h).headers@ == old(h).headers@.push((name, value)),
{
    h.insert(name, value)
}

} // verus!
