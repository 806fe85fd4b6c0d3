//! The statement that the bot writes and the request that carries it.

use crate::entity::{ClaimValue, EntityKind};
use crate::json::{json_quote, json_string_literal};
use crate::number::{decimal_text, push_decimal};
use crate::text::opt_text;
use vstd::prelude::*;
use vstd::string::StringExecFns;

verus! {

/// Whether a snak holds a value, is known to have none, or has an unknown one.
#[derive(Clone, Copy, Debug, PartialEq, Eq, Structural)]
pub enum SnakType {
    NoValue,
    UnknownValue,
    Value,
}

/// The word that stands for a snak type in a request.
pub open spec fn snak_type_text(snak_type: SnakType) -> Seq<char> {
    match snak_type {
        SnakType::Value => "value"@,
        SnakType::NoValue => "novalue"@,
        SnakType::UnknownValue => "somevalue"@,
    }
}

/// The word that stands for a kind of entity in a request.
pub open spec fn kind_text(kind: EntityKind) -> Seq<char> {
    match kind {
        EntityKind::Item => "item"@,
        EntityKind::Property => "property"@,
        EntityKind::MediaInfo => "mediainfo"@,
        EntityKind::Lexeme => "lexeme"@,
        EntityKind::LexemeSense => "sense"@,
        EntityKind::LexemeForm => "form"@,
        EntityKind::EntitySchema => "entity-schema"@,
    }
}

/// The word that stands for a snak type in a request.
pub fn snak_type_name(snak_type: SnakType) -> (out: &'static str)
    ensures
        out@ == snak_type_text(snak_type),
{
    match snak_type {
        SnakType::Value => "value",
        SnakType::NoValue => "novalue",
        SnakType::UnknownValue => "somevalue",
    }
}

/// The word that stands for a kind of entity in a request.
pub fn kind_name(kind: EntityKind) -> (out: &'static str)
    ensures
        out@ == kind_text(kind),
{
    match kind {
        EntityKind::Item => "item",
        EntityKind::Property => "property",
        EntityKind::MediaInfo => "mediainfo",
        EntityKind::Lexeme => "lexeme",
        EntityKind::LexemeSense => "sense",
        EntityKind::LexemeForm => "form",
        EntityKind::EntitySchema => "entity-schema",
    }
}

/// The JSON text of a reference to the entity `id` of kind `kind`.
pub open spec fn entity_value_text(kind: EntityKind, id: Seq<char>) -> Seq<char> {
    "{\"entity-type\":"@ + json_string_literal(kind_text(kind)) + ",\"id\":"@ + json_string_literal(
        id,
    ) + "}"@
}

/// The JSON text of a value: an object for an entity reference, a string for
/// a string; a value of another kind has none.
pub open spec fn value_text(value: ClaimValue) -> Option<Seq<char>> {
    match value {
        ClaimValue::Entity { kind, id } => Some(entity_value_text(kind, id@)),
        ClaimValue::StringValue(s) => Some(json_string_literal(s@)),
        ClaimValue::Other => None,
    }
}

/// The JSON text of the edit that adds one statement: a list `claims` with a
/// single claim of type `statement`, its main snak and its rank, the members
/// of each object in alphabetical order.
pub open spec fn claim_data_text(
    snak_type: SnakType,
    value_type: Seq<char>,
    property: Seq<char>,
    value: Seq<char>,
    rank: Seq<char>,
) -> Seq<char> {
    "{\"claims\":[{\"mainsnak\":{\"datavalue\":{\"type\":"@ + json_string_literal(value_type)
        + ",\"value\":"@ + value + "},\"property\":"@ + json_string_literal(property)
        + ",\"snaktype\":"@ + json_string_literal(snak_type_text(snak_type)) + "},\"rank\":"@
        + json_string_literal(rank) + ",\"type\":\"statement\"}]}"@
}

/// The JSON text of `value`; `None` for a value that is neither an entity
/// reference nor a string.
pub fn value_json(value: &ClaimValue) -> (out: Option<String>)
    ensures
        out is Some == value_text(*value) is Some,
        out matches Some(t) ==> Some(t@) == value_text(*value),
{
    match value {
        ClaimValue::Entity { kind, id } => {
            let mut out = String::from_str("{\"entity-type\":");
            out.append(json_quote(kind_name(*kind)).as_str());
            out.append(",\"id\":");
            out.append(json_quote(id.as_str()).as_str());
            out.append("}");
            Some(out)
        },
        ClaimValue::StringValue(s) => Some(json_quote(s.as_str())),
        ClaimValue::Other => None,
    }
}

/// The JSON text of the edit that adds one statement with the value whose
/// JSON text is `value`.
pub fn claim_data(
    snak_type: SnakType,
    value_type: &str,
    property: &str,
    value: &str,
    rank: &str,
) -> (out: String)
    ensures
        out@ == claim_data_text(snak_type, value_type@, property@, value@, rank@),
{
    let mut out = String::from_str("{\"claims\":[{\"mainsnak\":{\"datavalue\":{\"type\":");
    out.append(json_quote(value_type).as_str());
    out.append(",\"value\":");
    out.append(value);
    out.append("},\"property\":");
    out.append(json_quote(property).as_str());
    out.append(",\"snaktype\":");
    out.append(json_quote(snak_type_name(snak_type)).as_str());
    out.append("},\"rank\":");
    out.append(json_quote(rank).as_str());
    out.append(",\"type\":\"statement\"}]}");
    out
}

/// The edit summary that names the item a statement was taken from.
pub open spec fn summary_text(item: Seq<char>) -> Seq<char> {
    "Used with P18 on Wikidata [[:d:"@ + item + "|]] #rust_commons_statement"@
}

/// The edit summary for a statement taken from `item`.
pub fn edit_summary(item: &str) -> (out: String)
    ensures
        out@ == summary_text(item@),
{
    let mut out = String::from_str("Used with P18 on Wikidata [[:d:");
    out.append(item);
    out.append("|]] #rust_commons_statement");
    out
}

/// A statement to be made: what is said of which entity, with what rank,
/// under what edit summary and on what revision. It is made up just before
/// it is sent and kept nowhere.
#[derive(Clone, Debug, PartialEq, Eq)]
pub struct Statement {
    pub subject: String,
    pub property: String,
    pub value: ClaimValue,
    pub rank: String,
    pub summary: Option<String>,
    pub base_revision: Option<u64>,
}

/// The type under which a value travels in a request.
pub open spec fn value_type_text(value: ClaimValue) -> Seq<char> {
    match value {
        ClaimValue::Entity { .. } => "wikibase-entityid"@,
        _ => "string"@,
    }
}

/// The type under which a value travels in a request.
pub fn value_type_name(value: &ClaimValue) -> (out: &'static str)
    ensures
        out@ == value_type_text(*value),
{
    match value {
        ClaimValue::Entity { .. } => "wikibase-entityid",
        _ => "string",
    }
}

impl Statement {
    /// The parameters of the request that makes the statement; `None` where
    /// its value is neither an entity reference nor a string.
    pub open spec fn request_text(self, is_bot: bool, token: Seq<char>) -> Option<
        Seq<(Seq<char>, Seq<char>)>,
    > {
        match value_text(self.value) {
            Some(value) => Some(
                edit_params(
                    self.subject@,
                    claim_data_text(
                        SnakType::Value,
                        value_type_text(self.value),
                        self.property@,
                        value,
                        self.rank@,
                    ),
                    opt_text(self.summary),
                    self.base_revision,
                    is_bot,
                    token,
                ),
            ),
            None => None,
        }
    }

    /// The statement that the entity `subject` has the item `item` as a
    /// value of `property`: of preferred rank, with the summary that names
    /// the item, on whatever revision is current.
    pub fn about_item(subject: &str, property: &str, item: &str) -> (out: Statement)
        ensures
            out.subject@ == subject@,
            out.property@ == property@,
            out.value matches ClaimValue::Entity { kind, id } && kind == EntityKind::Item && id@
                == item@,
            out.rank@ == "preferred"@,
            opt_text(out.summary) == Some(summary_text(item@)),
            out.base_revision is None,
    {
        Statement {
            subject: String::from_str(subject),
            property: String::from_str(property),
            value: ClaimValue::Entity { kind: EntityKind::Item, id: String::from_str(item) },
            rank: String::from_str("preferred"),
            summary: Some(edit_summary(item)),
            base_revision: None,
        }
    }

    /// The parameters of the request that makes the statement.
    pub fn request(self, is_bot: bool, token: String) -> (out: Option<Vec<(String, String)>>)
        ensures
            out is Some == self.request_text(is_bot, token@) is Some,
            out matches Some(params) ==> Some(pairs(params@)) == self.request_text(
                is_bot,
                token@,
            ),
    {
        create_claim_params(
            self.subject.as_str(),
            SnakType::Value,
            value_type_name(&self.value),
            self.property.as_str(),
            &self.value,
            self.summary,
            self.base_revision,
            Some(self.rank.as_str()),
            is_bot,
            token,
        )
    }
}

/// The digits of `n`, behind a `-` where it is negative.
pub open spec fn signed_text(n: int) -> Seq<char> {
    if n < 0 {
        seq!['-'] + decimal_text((-n) as nat)
    } else {
        decimal_text(n as nat)
    }
}

/// The identifier of the metadata entity of the file page `page_id`: the
/// letter `M` and the page's number.
pub open spec fn media_id_text(page_id: int) -> Seq<char> {
    seq!['M'] + signed_text(page_id)
}

/// The identifier of the metadata entity of the file page `page_id`.
pub fn media_entity_id(page_id: i64) -> (out: String)
    ensures
        out@ == media_id_text(page_id as int),
{
    let mut out = String::from_str("M");
    proof {
        reveal_strlit("M");
        assert("M"@ =~= seq!['M']);
    }
    if page_id < 0 {
        out.append("-");
        proof {
            reveal_strlit("-");
            assert("-"@ =~= seq!['-']);
        }
        let magnitude: u64 = if page_id == i64::MIN {
            9223372036854775808
        } else {
            (-page_id) as u64
        };
        push_decimal(&mut out, magnitude);
        proof {
            assert(out@ =~= seq!['M'] + (seq!['-'] + decimal_text((-page_id) as nat)));
        }
    } else {
        push_decimal(&mut out, page_id as u64);
    }
    out
}

/// The text of each name and value of `params`.
pub open spec fn pairs(params: Seq<(String, String)>) -> Seq<(Seq<char>, Seq<char>)> {
    params.map_values(|p: (String, String)| (p.0@, p.1@))
}

/// Adds the parameter `name` with the value `value`.
pub fn add_param(params: &mut Vec<(String, String)>, name: &str, value: String)
    ensures
        pairs(final(params)@) == pairs(old(params)@).push((name@, value@)),
{
    params.push((String::from_str(name), value));
    proof {
        assert(pairs(params@) =~= pairs(old(params)@).push((name@, value@)));
    }
}

/// What `add_summary` appends: the summary, if there is one.
pub open spec fn summary_params(summary: Option<Seq<char>>) -> Seq<(Seq<char>, Seq<char>)> {
    match summary {
        Some(s) => seq![("summary"@, s)],
        None => Seq::empty(),
    }
}

/// What `add_baserevid` appends: the base revision in decimal, if there is
/// one.
pub open spec fn baserevid_params(baserevid: Option<u64>) -> Seq<(Seq<char>, Seq<char>)> {
    match baserevid {
        Some(r) => seq![("baserevid"@, decimal_text(r as nat))],
        None => Seq::empty(),
    }
}

/// What `add_bot_flag` appends: the flag, for a bot account.
pub open spec fn bot_params(is_bot: bool) -> Seq<(Seq<char>, Seq<char>)> {
    if is_bot {
        seq![("bot"@, "1"@)]
    } else {
        Seq::empty()
    }
}

/// Adds the edit summary, if there is one.
pub fn add_summary(params: &mut Vec<(String, String)>, summary: Option<String>)
    ensures
        pairs(final(params)@) == pairs(old(params)@) + summary_params(opt_text(summary)),
{
    match summary {
        Some(s) => {
            add_param(params, "summary", s);
            proof {
                assert(pairs(params@) =~= pairs(old(params)@) + summary_params(opt_text(summary)));
            }
        },
        None => {
            proof {
                assert(pairs(params@) =~= pairs(old(params)@) + summary_params(opt_text(summary)));
            }
        },
    }
}

/// Adds the base revision, if there is one.
pub fn add_baserevid(params: &mut Vec<(String, String)>, baserevid: Option<u64>)
    ensures
        pairs(final(params)@) == pairs(old(params)@) + baserevid_params(baserevid),
{
    match baserevid {
        Some(r) => {
            let mut digits = String::new();
            push_decimal(&mut digits, r);
            proof {
                assert(digits@ =~= decimal_text(r as nat));
            }
            add_param(params, "baserevid", digits);
            proof {
                assert(pairs(params@) =~= pairs(old(params)@) + baserevid_params(baserevid));
            }
        },
        None => {
            proof {
                assert(pairs(params@) =~= pairs(old(params)@) + baserevid_params(baserevid));
            }
        },
    }
}

/// Adds the bot flag where the account is a bot's.
pub fn add_bot_flag(params: &mut Vec<(String, String)>, is_bot: bool)
    ensures
        pairs(final(params)@) == pairs(old(params)@) + bot_params(is_bot),
{
    if is_bot {
        add_param(params, "bot", String::from_str("1"));
    }
    proof {
        assert(pairs(params@) =~= pairs(old(params)@) + bot_params(is_bot));
    }
}

/// Adds the edit token.
pub fn add_edit_token(params: &mut Vec<(String, String)>, token: String)
    ensures
        pairs(final(params)@) == pairs(old(params)@).push(("token"@, token@)),
{
    add_param(params, "token", token);
}

/// The rank that a statement gets where none is named.
pub open spec fn rank_or_normal(rank: Option<&str>) -> Seq<char> {
    match rank {
        Some(r) => r@,
        None => "normal"@,
    }
}

/// The parameters of the request that adds one statement to `entity`.
pub open spec fn edit_params(
    entity: Seq<char>,
    data: Seq<char>,
    summary: Option<Seq<char>>,
    baserevid: Option<u64>,
    is_bot: bool,
    token: Seq<char>,
) -> Seq<(Seq<char>, Seq<char>)> {
    seq![("action"@, "wbeditentity"@), ("id"@, entity), ("data"@, data)] + summary_params(summary)
        + baserevid_params(baserevid) + bot_params(is_bot) + seq![("token"@, token)]
}

/// The request that adds to `entity` one statement about `property` with the
/// value `value`; `None` where the value is neither an entity reference nor a
/// string.
pub fn create_claim_params(
    entity: &str,
    snak_type: SnakType,
    value_type: &str,
    property: &str,
    value: &ClaimValue,
    summary: Option<String>,
    baserevid: Option<u64>,
    rank: Option<&str>,
    is_bot: bool,
    token: String,
) -> (out: Option<Vec<(String, String)>>)
    ensures
        out is Some == value_text(*value) is Some,
        out matches Some(params) ==> pairs(params@) == edit_params(
            entity@,
            claim_data_text(
                snak_type,
                value_type@,
                property@,
                value_text(*value).unwrap(),
                rank_or_normal(rank),
            ),
            opt_text(summary),
            baserevid,
            is_bot,
            token@,
        ),
{
    let rank_text: &str = match rank {
        Some(r) => r,
        None => "normal",
    };
    let value_text = match value_json(value) {
        Some(t) => t,
        None => {
            return None;
        },
    };
    let data = claim_data(snak_type, value_type, property, value_text.as_str(), rank_text);
    let mut params: Vec<(String, String)> = Vec::new();
    add_param(&mut params, "action", String::from_str("wbeditentity"));
    add_param(&mut params, "id", String::from_str(entity));
    add_param(&mut params, "data", data);
    proof {
        assert(pairs(params@) =~= seq![
            ("action"@, "wbeditentity"@),
            ("id"@, entity@),
            ("data"@, data@),
        ]);
    }
    add_summary(&mut params, summary);
    add_baserevid(&mut params, baserevid);
    add_bot_flag(&mut params, is_bot);
    add_edit_token(&mut params, token);
    Some(params)
}

} // verus!
