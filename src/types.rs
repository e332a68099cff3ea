//! All the entities used in responses from the API, and how each is read
//! from its JSON object. Member names are in camelCase on the wire; members
//! that the schema does not name are ignored.

use vstd::prelude::*;

use crate::error::{Error, JsonError};
use crate::json::{
    flag_at, get_flag, get_list, get_member, get_text, get_u32, get_u8, list_at, member, text_at,
    u32_at, u8_at, Json,
};

verus! {

pub struct Software {
    pub name: String,
    pub version: String,
    pub api_version: u8,
    pub premium: bool,
    pub premium_hint: String,
    pub status: String,
}

impl Software {
    /// Whether `j` holds a `Software`.
    pub open spec fn decodes(j: Json) -> bool {
        &&& text_at(j, "name"@) is Some
        &&& text_at(j, "version"@) is Some
        &&& u8_at(j, "apiVersion"@) is Some
        &&& flag_at(j, "premium"@) is Some
        &&& text_at(j, "premiumHint"@) is Some
        &&& text_at(j, "status"@) is Some
    }

    /// Whether every field of `self` is the matching member of `j`.
    pub open spec fn read_from(self, j: Json) -> bool {
        &&& text_at(j, "name"@) == Some(self.name@)
        &&& text_at(j, "version"@) == Some(self.version@)
        &&& u8_at(j, "apiVersion"@) == Some(self.api_version)
        &&& flag_at(j, "premium"@) == Some(self.premium)
        &&& text_at(j, "premiumHint"@) == Some(self.premium_hint@)
        &&& text_at(j, "status"@) == Some(self.status@)
    }

    pub fn from_json(j: &Json) -> (r: Option<Self>)
        ensures
            r is Some <==> Self::decodes(*j),
            r matches Some(v) ==> v.read_from(*j),
    {
        let name = match get_text(j, "name") {
            Some(v) => v,
            None => return None,
        };
        let version = match get_text(j, "version") {
            Some(v) => v,
            None => return None,
        };
        let api_version = match get_u8(j, "apiVersion") {
            Some(v) => v,
            None => return None,
        };
        let premium = match get_flag(j, "premium") {
            Some(v) => v,
            None => return None,
        };
        let premium_hint = match get_text(j, "premiumHint") {
            Some(v) => v,
            None => return None,
        };
        let status = match get_text(j, "status") {
            Some(v) => v,
            None => return None,
        };
        Some(Software { name, version, api_version, premium, premium_hint, status })
    }
}

pub struct Warnings {
    pub incomplete_results: bool,
}

impl Warnings {
    pub open spec fn decodes(j: Json) -> bool {
        flag_at(j, "incompleteResults"@) is Some
    }

    pub open spec fn read_from(self, j: Json) -> bool {
        flag_at(j, "incompleteResults"@) == Some(self.incomplete_results)
    }

    pub fn from_json(j: &Json) -> (r: Option<Self>)
        ensures
            r is Some <==> Self::decodes(*j),
            r matches Some(v) ==> v.read_from(*j),
    {
        match get_flag(j, "incompleteResults") {
            Some(incomplete_results) => Some(Warnings { incomplete_results }),
            None => None,
        }
    }
}

pub struct Language {
    pub name: String,
    pub code: String,
    pub detected_language: DetectedLanguage,
}

impl Language {
    pub open spec fn decodes(j: Json) -> bool {
        &&& text_at(j, "name"@) is Some
        &&& text_at(j, "code"@) is Some
        &&& member(j, "detectedLanguage"@) matches Some(d) && DetectedLanguage::decodes(d)
    }

    pub open spec fn read_from(self, j: Json) -> bool {
        &&& text_at(j, "name"@) == Some(self.name@)
        &&& text_at(j, "code"@) == Some(self.code@)
        &&& member(j, "detectedLanguage"@) matches Some(d) && self.detected_language.read_from(d)
    }

    pub fn from_json(j: &Json) -> (r: Option<Self>)
        ensures
            r is Some <==> Self::decodes(*j),
            r matches Some(v) ==> v.read_from(*j),
    {
        let name = match get_text(j, "name") {
            Some(v) => v,
            None => return None,
        };
        let code = match get_text(j, "code") {
            Some(v) => v,
            None => return None,
        };
        let detected_language = match get_member(j, "detectedLanguage") {
            Some(d) => match DetectedLanguage::from_json(d) {
                Some(v) => v,
                None => return None,
            },
            None => return None,
        };
        Some(Language { name, code, detected_language })
    }
}

pub struct DetectedLanguage {
    pub name: String,
    pub code: String,
}

impl DetectedLanguage {
    pub open spec fn decodes(j: Json) -> bool {
        &&& text_at(j, "name"@) is Some
        &&& text_at(j, "code"@) is Some
    }

    pub open spec fn read_from(self, j: Json) -> bool {
        &&& text_at(j, "name"@) == Some(self.name@)
        &&& text_at(j, "code"@) == Some(self.code@)
    }

    pub fn from_json(j: &Json) -> (r: Option<Self>)
        ensures
            r is Some <==> Self::decodes(*j),
            r matches Some(v) ==> v.read_from(*j),
    {
        let name = match get_text(j, "name") {
            Some(v) => v,
            None => return None,
        };
        let code = match get_text(j, "code") {
            Some(v) => v,
            None => return None,
        };
        Some(DetectedLanguage { name, code })
    }
}

pub struct Replacement {
    pub value: String,
}

impl Replacement {
    pub open spec fn decodes(j: Json) -> bool {
        text_at(j, "value"@) is Some
    }

    pub open spec fn read_from(self, j: Json) -> bool {
        text_at(j, "value"@) == Some(self.value@)
    }

    pub fn from_json(j: &Json) -> (r: Option<Self>)
        ensures
            r is Some <==> Self::decodes(*j),
            r matches Some(v) ==> v.read_from(*j),
    {
        match get_text(j, "value") {
            Some(value) => Some(Replacement { value }),
            None => None,
        }
    }

    /// Whether every element of `a` holds a `Replacement`.
    pub open spec fn all_decode(a: Seq<Json>) -> bool {
        forall|i: int| 0 <= i < a.len() ==> #[trigger] Self::decodes(a[i])
    }

    /// Whether `rs` is read element by element from `a`.
    pub open spec fn all_read_from(rs: Seq<Replacement>, a: Seq<Json>) -> bool {
        &&& rs.len() == a.len()
        &&& forall|i: int| 0 <= i < a.len() ==> #[trigger] rs[i].read_from(a[i])
    }

    pub fn all_from_json(a: &Vec<Json>) -> (r: Option<Vec<Self>>)
        ensures
            r is Some <==> Self::all_decode(a@),
            r matches Some(rs) ==> Self::all_read_from(rs@, a@),
    {
        let mut out: Vec<Replacement> = Vec::new();
        let mut i: usize = 0;
        while i < a.len()
            invariant
                i <= a@.len(),
                out@.len() == i,
                forall|k: int| 0 <= k < i ==> #[trigger] Self::decodes(a@[k]),
                forall|k: int| 0 <= k < i ==> #[trigger] out@[k].read_from(a@[k]),
            decreases a@.len() - i,
        {
            match Self::from_json(&a[i]) {
                Some(v) => out.push(v),
                None => {
                    assert(!Self::decodes(a@[i as int]));
                    return None;
                },
            }
            i += 1;
        }
        Some(out)
    }
}

pub struct Context {
    pub text: String,
    pub offset: u32,
    pub length: u32,
}

impl Context {
    pub open spec fn decodes(j: Json) -> bool {
        &&& text_at(j, "text"@) is Some
        &&& u32_at(j, "offset"@) is Some
        &&& u32_at(j, "length"@) is Some
    }

    pub open spec fn read_from(self, j: Json) -> bool {
        &&& text_at(j, "text"@) == Some(self.text@)
        &&& u32_at(j, "offset"@) == Some(self.offset)
        &&& u32_at(j, "length"@) == Some(self.length)
    }

    pub fn from_json(j: &Json) -> (r: Option<Self>)
        ensures
            r is Some <==> Self::decodes(*j),
            r matches Some(v) ==> v.read_from(*j),
    {
        let text = match get_text(j, "text") {
            Some(v) => v,
            None => return None,
        };
        let offset = match get_u32(j, "offset") {
            Some(v) => v,
            None => return None,
        };
        let length = match get_u32(j, "length") {
            Some(v) => v,
            None => return None,
        };
        Some(Context { text, offset, length })
    }
}

pub struct Type {
    /// `"typeName"` on the wire.
    pub name: String,
}

impl Type {
    pub open spec fn decodes(j: Json) -> bool {
        text_at(j, "typeName"@) is Some
    }

    pub open spec fn read_from(self, j: Json) -> bool {
        text_at(j, "typeName"@) == Some(self.name@)
    }

    pub fn from_json(j: &Json) -> (r: Option<Self>)
        ensures
            r is Some <==> Self::decodes(*j),
            r matches Some(v) ==> v.read_from(*j),
    {
        match get_text(j, "typeName") {
            Some(name) => Some(Type { name }),
            None => None,
        }
    }
}

pub struct Category {
    /// Category ID. `"TYPOS"`
    pub id: String,
    /// Category name. `"Possible Typo"`
    pub name: String,
}

impl Category {
    pub open spec fn decodes(j: Json) -> bool {
        &&& text_at(j, "id"@) is Some
        &&& text_at(j, "name"@) is Some
    }

    pub open spec fn read_from(self, j: Json) -> bool {
        &&& text_at(j, "id"@) == Some(self.id@)
        &&& text_at(j, "name"@) == Some(self.name@)
    }

    pub fn from_json(j: &Json) -> (r: Option<Self>)
        ensures
            r is Some <==> Self::decodes(*j),
            r matches Some(v) ==> v.read_from(*j),
    {
        let id = match get_text(j, "id") {
            Some(v) => v,
            None => return None,
        };
        let name = match get_text(j, "name") {
            Some(v) => v,
            None => return None,
        };
        Some(Category { id, name })
    }
}

pub struct Rule {
    pub id: String,
    pub description: String,
    pub issue_type: String,
    pub category: Category,
}

impl Rule {
    pub open spec fn decodes(j: Json) -> bool {
        &&& text_at(j, "id"@) is Some
        &&& text_at(j, "description"@) is Some
        &&& text_at(j, "issueType"@) is Some
        &&& member(j, "category"@) matches Some(c) && Category::decodes(c)
    }

    pub open spec fn read_from(self, j: Json) -> bool {
        &&& text_at(j, "id"@) == Some(self.id@)
        &&& text_at(j, "description"@) == Some(self.description@)
        &&& text_at(j, "issueType"@) == Some(self.issue_type@)
        &&& member(j, "category"@) matches Some(c) && self.category.read_from(c)
    }

    pub fn from_json(j: &Json) -> (r: Option<Self>)
        ensures
            r is Some <==> Self::decodes(*j),
            r matches Some(v) ==> v.read_from(*j),
    {
        let id = match get_text(j, "id") {
            Some(v) => v,
            None => return None,
        };
        let description = match get_text(j, "description") {
            Some(v) => v,
            None => return None,
        };
        let issue_type = match get_text(j, "issueType") {
            Some(v) => v,
            None => return None,
        };
        let category = match get_member(j, "category") {
            Some(c) => match Category::from_json(c) {
                Some(v) => v,
                None => return None,
            },
            None => return None,
        };
        Some(Rule { id, description, issue_type, category })
    }
}

pub struct Match {
    pub message: String,
    pub short_message: String,
    pub replacements: Vec<Replacement>,
    pub offset: u32,
    pub length: u32,
    pub context: Context,
    pub sentence: String,
    /// The issue's type; `"type"` on the wire.
    pub type_: Type,
    pub rule: Rule,
}

impl Match {
    pub open spec fn decodes(j: Json) -> bool {
        &&& text_at(j, "message"@) is Some
        &&& text_at(j, "shortMessage"@) is Some
        &&& list_at(j, "replacements"@) matches Some(a) && Replacement::all_decode(a)
        &&& u32_at(j, "offset"@) is Some
        &&& u32_at(j, "length"@) is Some
        &&& member(j, "context"@) matches Some(c) && Context::decodes(c)
        &&& text_at(j, "sentence"@) is Some
        &&& member(j, "type"@) matches Some(t) && Type::decodes(t)
        &&& member(j, "rule"@) matches Some(u) && Rule::decodes(u)
    }

    pub open spec fn read_from(self, j: Json) -> bool {
        &&& text_at(j, "message"@) == Some(self.message@)
        &&& text_at(j, "shortMessage"@) == Some(self.short_message@)
        &&& list_at(j, "replacements"@) matches Some(a) && Replacement::all_read_from(
            self.replacements@,
            a,
        )
        &&& u32_at(j, "offset"@) == Some(self.offset)
        &&& u32_at(j, "length"@) == Some(self.length)
        &&& member(j, "context"@) matches Some(c) && self.context.read_from(c)
        &&& text_at(j, "sentence"@) == Some(self.sentence@)
        &&& member(j, "type"@) matches Some(t) && self.type_.read_from(t)
        &&& member(j, "rule"@) matches Some(u) && self.rule.read_from(u)
    }

    pub fn from_json(j: &Json) -> (r: Option<Self>)
        ensures
            r is Some <==> Self::decodes(*j),
            r matches Some(v) ==> v.read_from(*j),
    {
        let message = match get_text(j, "message") {
            Some(v) => v,
            None => return None,
        };
        let short_message = match get_text(j, "shortMessage") {
            Some(v) => v,
            None => return None,
        };
        let replacements = match get_list(j, "replacements") {
            Some(a) => match Replacement::all_from_json(a) {
                Some(v) => v,
                None => return None,
            },
            None => return None,
        };
        let offset = match get_u32(j, "offset") {
            Some(v) => v,
            None => return None,
        };
        let length = match get_u32(j, "length") {
            Some(v) => v,
            None => return None,
        };
        let context = match get_member(j, "context") {
            Some(c) => match Context::from_json(c) {
                Some(v) => v,
                None => return None,
            },
            None => return None,
        };
        let sentence = match get_text(j, "sentence") {
            Some(v) => v,
            None => return None,
        };
        let type_ = match get_member(j, "type") {
            Some(t) => match Type::from_json(t) {
                Some(v) => v,
                None => return None,
            },
            None => return None,
        };
        let rule = match get_member(j, "rule") {
            Some(u) => match Rule::from_json(u) {
                Some(v) => v,
                None => return None,
            },
            None => return None,
        };
        Some(Match {
            message,
            short_message,
            replacements,
            offset,
            length,
            context,
            sentence,
            type_,
            rule,
        })
    }

    /// Whether every element of `a` holds a `Match`.
    pub open spec fn all_decode(a: Seq<Json>) -> bool {
        forall|i: int| 0 <= i < a.len() ==> #[trigger] Self::decodes(a[i])
    }

    /// Whether `ms` is read element by element from `a`.
    pub open spec fn all_read_from(ms: Seq<Match>, a: Seq<Json>) -> bool {
        &&& ms.len() == a.len()
        &&& forall|i: int| 0 <= i < a.len() ==> #[trigger] ms[i].read_from(a[i])
    }

    pub fn all_from_json(a: &Vec<Json>) -> (r: Option<Vec<Self>>)
        ensures
            r is Some <==> Self::all_decode(a@),
            r matches Some(ms) ==> Self::all_read_from(ms@, a@),
    {
        let mut out: Vec<Match> = Vec::new();
        let mut i: usize = 0;
        while i < a.len()
            invariant
                i <= a@.len(),
                out@.len() == i,
                forall|k: int| 0 <= k < i ==> #[trigger] Self::decodes(a@[k]),
                forall|k: int| 0 <= k < i ==> #[trigger] out@[k].read_from(a@[k]),
            decreases a@.len() - i,
        {
            match Self::from_json(&a[i]) {
                Some(v) => out.push(v),
                None => {
                    assert(!Self::decodes(a@[i as int]));
                    return None;
                },
            }
            i += 1;
        }
        Some(out)
    }
}

/// A reply whose list of matches holds one element without a valid `rule`
/// member does not decode: there is no partial `Response`.
pub proof fn match_without_rule_fails(j: Json, i: int)
    requires
        list_at(j, "matches"@) matches Some(a) && 0 <= i < a.len() && !(member(a[i], "rule"@) matches Some(u) && Rule::decodes(u)),
    ensures
        !Response::decodes(j),
{
    let a = list_at(j, "matches"@)->0;
    assert(!Match::decodes(a[i]));
}

/// A reply whose list of matches holds one element that does not decode
/// makes the whole check fail with a schema error.
pub proof fn bad_match_fails(j: Json, i: int)
    requires
        list_at(j, "matches"@) matches Some(a) && 0 <= i < a.len() && !Match::decodes(a[i]),
    ensures
        !Response::decodes(j),
{
}

/// A typed representation of the JSON response.
pub struct Response {
    pub software: Software,
    pub warnings: Warnings,
    pub language: Language,
    pub matches: Vec<Match>,
}

impl Response {
    /// Whether `j` holds a `Response`: every member that the schema names is
    /// present, with the right type, all the way down.
    pub open spec fn decodes(j: Json) -> bool {
        &&& member(j, "software"@) matches Some(s) && Software::decodes(s)
        &&& member(j, "warnings"@) matches Some(w) && Warnings::decodes(w)
        &&& member(j, "language"@) matches Some(l) && Language::decodes(l)
        &&& list_at(j, "matches"@) matches Some(a) && Match::all_decode(a)
    }

    pub open spec fn read_from(self, j: Json) -> bool {
        &&& member(j, "software"@) matches Some(s) && self.software.read_from(s)
        &&& member(j, "warnings"@) matches Some(w) && self.warnings.read_from(w)
        &&& member(j, "language"@) matches Some(l) && self.language.read_from(l)
        &&& list_at(j, "matches"@) matches Some(a) && Match::all_read_from(self.matches@, a)
    }

    pub fn from_json(j: &Json) -> (r: Option<Self>)
        ensures
            r is Some <==> Self::decodes(*j),
            r matches Some(v) ==> v.read_from(*j),
    {
        let software = match get_member(j, "software") {
            Some(s) => match Software::from_json(s) {
                Some(v) => v,
                None => return None,
            },
            None => return None,
        };
        let warnings = match get_member(j, "warnings") {
            Some(w) => match Warnings::from_json(w) {
                Some(v) => v,
                None => return None,
            },
            None => return None,
        };
        let language = match get_member(j, "language") {
            Some(l) => match Language::from_json(l) {
                Some(v) => v,
                None => return None,
            },
            None => return None,
        };
        let matches = match get_list(j, "matches") {
            Some(a) => match Match::all_from_json(a) {
                Some(v) => v,
                None => return None,
            },
            None => return None,
        };
        Some(Response { software, warnings, language, matches })
    }

    /// The outcome of a check, from what the exchange gave: `Err` with the
    /// transport's message where it failed, `Ok(Err(..))` where the body could
    /// not be read as JSON, or `Ok(Ok(..))` with the body's JSON value.
    pub fn from_reply(reply: Result<Result<Json, JsonError>, String>) -> (r: Result<Self, Error>)
        ensures
            match reply {
                Err(m) => r matches Err(Error::RequestFailed { message }) && message == m,
                Ok(Err(e)) => r matches Err(Error::InvalidJSON { source }) && source == e,
                Ok(Ok(j)) => match r {
                    Ok(v) => Self::decodes(j) && v.read_from(j),
                    Err(e) => !Self::decodes(j) && e matches Error::InvalidJSON {
                        source: JsonError::Schema,
                    },
                },
            },
    {
        match reply {
            Err(message) => Err(Error::RequestFailed { message }),
            Ok(Err(source)) => Err(Error::InvalidJSON { source }),
            Ok(Ok(j)) => match Self::from_json(&j) {
                Some(v) => Ok(v),
                None => Err(Error::InvalidJSON { source: JsonError::Schema }),
            },
        }
    }
}

} // verus!
