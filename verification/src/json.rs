//! Reading one level of a JSON document.

use vstd::prelude::*;

verus! {

/// What a JSON document is, one level deep: whether it is null, the natural
/// number, the string or the object that it is. The members of an object are
/// documents again, each under its name.
#[derive(Debug)]
pub struct JsonReadingV2 {
    pub null: bool,
    pub unsigned: Option<u64>,
    pub text: Option<String>,
    pub members: Option<Vec<(String, String)>>,
}

/// The names and documents of an object's members.
pub open spec fn member_texts(members: Seq<(String, String)>) -> Seq<(Seq<char>, Seq<char>)> {
    members.map_values(|member: (String, String)| (member.0@, member.1@))
}

impl JsonReadingV2 {
    /// The reading over plain sequences: null, number, string, members.
    pub open spec fn model(&self) -> (
        bool,
        Option<u64>,
        Option<Seq<char>>,
        Option<Seq<(Seq<char>, Seq<char>)>>,
    ) {
        (
            self.null,
            self.unsigned,
            match self.text {
                Some(text) => Some(text@),
                None => None,
            },
            match self.members {
                Some(members) => Some(member_texts(members@)),
                None => None,
            },
        )
    }
}

/// What `serde_json` reads in a document, one level deep; nothing where the
/// text is no JSON document.
pub uninterp spec fn parsed_json(text: Seq<char>) -> Option<
    (bool, Option<u64>, Option<Seq<char>>, Option<Seq<(Seq<char>, Seq<char>)>>),
>;

/// Reads a document with `serde_json::from_str` and asks the value what it is
/// with `is_null`, `as_u64`, `as_str` and `as_object`; each member of an
/// object is written out again with the value's `to_string`. The claim is that
/// the outcome depends on the text alone.
#[verifier::external_body]
pub(crate) fn read_json(text: &str) -> (r: Option<JsonReadingV2>)
    ensures
        r is Some == parsed_json(text@) is Some,
        r matches Some(reading) ==> parsed_json(text@) == Some(reading.model()),
{
    let value = serde_json::from_str::<serde_json::Value>(text).ok()?;
    Some(JsonReadingV2 {
        null: value.is_null(),
        unsigned: value.as_u64(),
        text: value.as_str().map(str::to_owned),
        members: value.as_object().map(|object| {
            object.iter().map(|(name, member)| (name.clone(), member.to_string())).collect()
        }),
    })
}

} // verus!
