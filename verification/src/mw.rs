//! The bot's context: its settings and its entity cache, with the
//! operations of the bot as methods.

use crate::cache::EntityCache;
use crate::claim::{create_claim_params, edit_params, claim_data_text, pairs, rank_or_normal, value_text, SnakType};
use crate::entity::{ClaimValue, EntityRecord};
use crate::json::Json;
use crate::log::{in_log, logged, texts};
use crate::responses::{
    free_page_image_from, free_page_image_in, page_id_from, page_id_in, query_params,
    template_query, templates_from, templates_in, PageIdError,
};
use crate::submit::{lookup, Action, ActionView, StageView, Submission, SubmissionView};
use crate::text::opt_text;
use crate::title::{decoded_title, title_decodable};
use vstd::prelude::*;
use vstd::string::StringExecFns;

verus! {

/// The bot's context.
#[derive(Clone, Debug)]
pub struct MW {
    /// The address of the wiki's API.
    pub api_url: String,
    /// The pause after each edit, in milliseconds.
    pub edit_delay_ms: Option<u64>,
    /// How long a request may take, in seconds.
    pub timeout_secs: u64,
    /// Whether the account that is logged in is a bot's.
    pub is_bot: bool,
    /// The entities fetched so far.
    pub ec: EntityCache,
    /// The file that the log is kept in.
    pub bot_log_file: String,
    /// Whether log lines are echoed to the operator.
    pub verbose: bool,
}

/// The name and the password that the bot logs in with.
#[derive(Clone, Debug, PartialEq, Eq)]
pub struct Login {
    pub name: String,
    pub password: String,
}

/// What the configuration lacks.
#[derive(Clone, Copy, Debug, PartialEq, Eq, Structural)]
pub enum ConfigError {
    /// No `user` in the section `user`.
    NoUser,
    /// No `pass` in the section `user`.
    NoPassword,
}

impl ConfigError {
    /// The error in words.
    pub fn message(&self) -> (out: &'static str)
        ensures
            out@ == match *self {
                ConfigError::NoUser => "No user.user in the configuration"@,
                ConfigError::NoPassword => "No user.pass in the configuration"@,
            },
    {
        match self {
            ConfigError::NoUser => "No user.user in the configuration",
            ConfigError::NoPassword => "No user.pass in the configuration",
        }
    }
}

impl MW {
    /// A context for the wiki at `api_url`: half a second of pause after
    /// each edit, 240 seconds for a request, an empty cache, the log in
    /// `bot.log`, and no echo.
    pub fn new(api_url: &str) -> (out: MW)
        ensures
            out.api_url@ == api_url@,
            out.edit_delay_ms == Some(500u64),
            out.timeout_secs == 240,
            !out.is_bot,
            out.ec.wf(),
            out.ec@ == Map::<Seq<char>, EntityRecord>::empty(),
            out.bot_log_file@ == "bot.log"@,
            !out.verbose,
    {
        MW {
            api_url: String::from_str(api_url),
            edit_delay_ms: Some(500),
            timeout_secs: 240,
            is_bot: false,
            ec: EntityCache::new(),
            bot_log_file: String::from_str("bot.log"),
            verbose: false,
        }
    }

    /// A context for the wiki at `api_url` and the login that the
    /// configuration gives: `user` is its entry `user.user`, `pass` its entry
    /// `user.pass`. Fails where one of them is missing, the user first.
    pub fn new_from_ini_file(user: Option<String>, pass: Option<String>, api_url: &str) -> (out:
        Result<(MW, Login), ConfigError>)
        ensures
            match (user, pass) {
                (None, _) => out == Err::<(MW, Login), ConfigError>(ConfigError::NoUser),
                (Some(_), None) => out == Err::<(MW, Login), ConfigError>(ConfigError::NoPassword),
                (Some(name), Some(password)) => {
                    &&& out matches Ok((mw, login))
                    &&& login.name == name
                    &&& login.password == password
                    &&& mw.api_url@ == api_url@
                    &&& mw.edit_delay_ms == Some(500u64)
                    &&& mw.timeout_secs == 240
                    &&& mw.ec.wf()
                    &&& mw.ec@ == Map::<Seq<char>, EntityRecord>::empty()
                    &&& mw.bot_log_file@ == "bot.log"@
                    &&& !mw.verbose
                },
            },
    {
        let name = match user {
            Some(name) => name,
            None => {
                return Err(ConfigError::NoUser);
            },
        };
        let password = match pass {
            Some(password) => password,
            None => {
                return Err(ConfigError::NoPassword);
            },
        };
        Ok((MW::new(api_url), Login { name, password }))
    }

    /// Whether some line of the log holds each of `parts` between quotation
    /// marks. `lines` are the lines of the log file; where the file cannot be
    /// read, there are none.
    pub fn in_bot_log(&self, lines: &Vec<String>, parts: Vec<&String>) -> (out: bool)
        ensures
            out == logged(lines@, texts(parts@)),
    {
        in_log(lines, &parts)
    }

    /// Appends `line` to the lines of the log. Says whether the line is to
    /// be echoed to the operator.
    pub fn append_log(&self, lines: &mut Vec<String>, line: String) -> (echo: bool)
        ensures
            final(lines)@ == old(lines)@.push(line),
            echo == self.verbose,
    {
        lines.push(line);
        self.verbose
    }

    /// The parameters of a query with two more parameters.
    pub fn api_query_prop2(&self, key1: &str, value1: &str, key2: &str, value2: &String) -> (out:
        Vec<(String, String)>)
        ensures
            pairs(out@) == seq![("action"@, "query"@), (key1@, value1@), (key2@, value2@)],
    {
        query_params(key1, value1, key2, value2.as_str())
    }

    /// The parameters of the query for the page properties of `title`, the
    /// full title of a page.
    pub fn page_props_query(&self, title: &String) -> (out: Vec<(String, String)>)
        ensures
            pairs(out@) == seq![
                ("action"@, "query"@),
                ("prop"@, "pageprops"@),
                ("titles"@, title@),
            ],
    {
        self.api_query_prop2("prop", "pageprops", "titles", title)
    }

    /// The page identifier in the answer to a page-properties query.
    pub fn get_page_id(&self, response: &Json) -> (out: Result<i64, PageIdError>)
        ensures
            out == page_id_in(*response),
    {
        page_id_from(response)
    }

    /// Whether the entity `entity_id` has to be fetched: the cache does not
    /// hold it.
    pub fn needs_loading(&self, entity_id: &str) -> (out: bool)
        ensures
            out == !self.ec@.contains_key(entity_id@),
    {
        !self.ec.has_entity(entity_id)
    }

    /// Takes in an entity as fetched, if it was, and hands out what the
    /// cache then holds under `entity_id`.
    pub fn load_entity(&mut self, entity_id: &str, fetched: Option<EntityRecord>) -> (out: Option<
        &EntityRecord,
    >)
        requires
            old(self).ec.wf(),
        ensures
            final(self).ec.wf(),
            final(self).ec@ == match fetched {
                Some(record) => old(self).ec@.insert(record.id@, record),
                None => old(self).ec@,
            },
            match out {
                Some(r) => lookup(final(self).ec@, entity_id@) == Some(*r),
                None => lookup(final(self).ec@, entity_id@) is None,
            },
            final(self).api_url == old(self).api_url,
            final(self).bot_log_file == old(self).bot_log_file,
            final(self).verbose == old(self).verbose,
            final(self).is_bot == old(self).is_bot,
    {
        match fetched {
            Some(record) => {
                self.ec.set_entity(record);
            },
            None => {},
        }
        self.ec.get_entity(entity_id)
    }

    /// The parameters of the request that adds one statement to `entity`;
    /// `None` where `value` is neither an entity reference nor a string. The
    /// rank is `normal` where none is given.
    pub fn wbcreateclaim(
        &self,
        entity: &String,
        snaktype: SnakType,
        valuetype: &str,
        property: &String,
        value: &ClaimValue,
        summary: Option<String>,
        baserevid: Option<u64>,
        rank: Option<&str>,
        token: String,
    ) -> (out: Option<Vec<(String, String)>>)
        ensures
            out is Some == value_text(*value) is Some,
            out matches Some(params) ==> pairs(params@) == edit_params(
                entity@,
                claim_data_text(
                    snaktype,
                    valuetype@,
                    property@,
                    value_text(*value).unwrap(),
                    rank_or_normal(rank),
                ),
                opt_text(summary),
                baserevid,
                self.is_bot,
                token@,
            ),
    {
        create_claim_params(
            entity.as_str(),
            snaktype,
            valuetype,
            property.as_str(),
            value,
            summary,
            baserevid,
            rank,
            self.is_bot,
            token,
        )
    }

    /// Drops `entity` from the cache: it was edited, and what the cache
    /// holds of it is out of date.
    pub fn claim_created(&mut self, entity: &str)
        requires
            old(self).ec.wf(),
        ensures
            final(self).ec.wf(),
            final(self).ec@ == old(self).ec@.remove(entity@),
    {
        let _ = self.ec.remove_entity(entity);
    }

    /// The free page image in the answer to a page-properties query.
    pub fn get_free_page_image(&self, response: &Json) -> (out: Option<String>)
        ensures
            out == free_page_image_in(*response),
    {
        free_page_image_from(response)
    }

    /// The parameters of the query that asks whether `page` uses the
    /// template `template`.
    pub fn template_query(&self, page: &String, template: &str) -> (out: Vec<(String, String)>)
        ensures
            pairs(out@) == seq![
                ("action"@, "query"@),
                ("prop"@, "templates"@),
                ("tltemplates"@, "Template:"@ + template@),
                ("titles"@, page@),
            ],
    {
        template_query(page.as_str(), template)
    }

    /// Whether the answer to a template query lists the template for some
    /// page.
    pub fn page_contains_template(&self, response: &Json) -> (out: bool)
        ensures
            out == templates_in(*response),
    {
        templates_from(response)
    }

    /// The parameters of the query that asks whether `file`, a file page
    /// with its namespace, uses the template `Artwork`.
    pub fn artwork_query(&self, file: &String) -> (out: Vec<(String, String)>)
        ensures
            pairs(out@) == seq![
                ("action"@, "query"@),
                ("prop"@, "templates"@),
                ("tltemplates"@, "Template:"@ + "Artwork"@),
                ("titles"@, file@),
            ],
    {
        self.template_query(file, "Artwork")
    }

    /// Whether the answer to the artwork query says that the file is
    /// described as an artwork.
    pub fn is_artwork(&self, response: &Json) -> (out: bool)
        ensures
            out == templates_in(*response),
    {
        self.page_contains_template(response)
    }

    /// The title that `s` writes: percent-decoded, with underscores for
    /// spaces.
    pub fn percent_decode_title(s: String) -> (out: String)
        requires
            title_decodable(s@),
        ensures
            out@ == decoded_title(s@),
    {
        crate::title::percent_decode_title(s)
    }

    /// Begins to add to the file `filename` the statement that it has
    /// `source_item` as the value of `property`. The first thing asked for is
    /// the page identifier of the file.
    pub fn add_target_prominent(&self, source_item: &String, filename: &String, property: &String) -> (out:
        (Submission, Action))
        ensures
            out.0@ == (SubmissionView {
                item: source_item@,
                image: filename@,
                property: property@,
                is_bot: self.is_bot,
                stage: StageView::AwaitPageId,
            }),
            out.1@ == (ActionView::QueryPageId { title: filename@, namespace: 6 }),
    {
        Submission::at_page_id(
            source_item.as_str(),
            filename.as_str(),
            property.as_str(),
            self.is_bot,
        )
    }
}

} // verus!
