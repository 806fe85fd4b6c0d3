//! What is done for one candidate, step by step. The caller performs each
//! action and hands back what came of it; this module decides what comes
//! next.

use crate::cache::EntityCache;
use crate::candidate::ItemArticleImagesPageImage;
use crate::claim::{
    claim_data_text, edit_params, entity_value_text, media_entity_id, media_id_text, pairs,
    summary_text, SnakType, Statement,
};
use crate::entity::{EntityKind, EntityRecord};
use crate::log::{log_line, record_line};
use crate::responses::PageIdError;
use crate::text::{opt_text, same_text};
use vstd::prelude::*;
use vstd::string::StringExecFns;

verus! {

/// How the work on a candidate ended.
#[derive(Clone, Copy, Debug, PartialEq, Eq, Structural)]
pub enum Outcome {
    /// The article has no free page image.
    NoPageImage,
    /// The article's free page image is not the image that the item declares.
    ImageMismatch,
    /// The file is described as the reproduction of an artwork.
    Artwork,
    /// The file page has no page identifier.
    NoPageId(PageIdError),
    /// The file's metadata entity has the statement already.
    AlreadyStated,
    /// No edit token could be had, or the edit was refused.
    EditFailed,
    /// An event came that the stage did not wait for.
    OutOfTurn,
}

/// What the operator is told where the work on the file `image` ended in
/// `outcome`: something where the file has no page identifier, nothing
/// otherwise.
pub open spec fn failure_text(outcome: Outcome, image: Seq<char>) -> Option<Seq<char>> {
    match outcome {
        Outcome::NoPageId(_) => Some("Could not get page ID for File:"@ + image),
        _ => None,
    }
}

impl Outcome {
    /// The error that the work on the file `image` ended in, in words;
    /// `None` where it ended without one.
    pub fn failure(&self, image: &str) -> (out: Option<String>)
        ensures
            opt_text(out) == failure_text(*self, image@),
    {
        match self {
            Outcome::NoPageId(_) => {
                let mut out = String::from_str("Could not get page ID for File:");
                out.append(image);
                Some(out)
            },
            _ => None,
        }
    }
}

/// What the caller reports back.
#[derive(Debug, PartialEq, Eq)]
pub enum Event {
    /// The free page image of the article, if it has one.
    PageImage(Option<String>),
    /// Whether the file page carries the artwork template.
    Artwork(bool),
    /// The page identifier of the file page.
    PageId(Result<i64, PageIdError>),
    /// The metadata entity as loaded; `None` where loading failed.
    Entity(Option<EntityRecord>),
    /// The edit token; `None` where none could be had.
    Token(Option<String>),
    /// Whether the edit was accepted.
    Edited(bool),
}

/// What a submission waits for.
#[derive(Clone, Debug, PartialEq, Eq)]
pub enum Stage {
    AwaitPageImage,
    AwaitArtwork,
    AwaitPageId,
    AwaitEntity { media_id: String },
    AwaitToken { media_id: String },
    AwaitEdit { media_id: String },
    Finished,
}

/// A stage, as text.
pub enum StageView {
    AwaitPageImage,
    AwaitArtwork,
    AwaitPageId,
    AwaitEntity { media_id: Seq<char> },
    AwaitToken { media_id: Seq<char> },
    AwaitEdit { media_id: Seq<char> },
    Finished,
}

impl View for Stage {
    type V = StageView;

    open spec fn view(&self) -> StageView {
        match *self {
            Stage::AwaitPageImage => StageView::AwaitPageImage,
            Stage::AwaitArtwork => StageView::AwaitArtwork,
            Stage::AwaitPageId => StageView::AwaitPageId,
            Stage::AwaitEntity { media_id } => StageView::AwaitEntity { media_id: media_id@ },
            Stage::AwaitToken { media_id } => StageView::AwaitToken { media_id: media_id@ },
            Stage::AwaitEdit { media_id } => StageView::AwaitEdit { media_id: media_id@ },
            Stage::Finished => StageView::Finished,
        }
    }
}

/// What the caller is to do next.
#[derive(Clone, Debug, PartialEq, Eq)]
pub enum Action {
    /// Fetch the free page image of `article` from the sibling wiki.
    FetchPageImage { article: String },
    /// Ask whether the page `file` carries the artwork template.
    CheckArtwork { file: String },
    /// Ask for the page identifier of the page `title` in the namespace
    /// `namespace`.
    QueryPageId { title: String, namespace: i64 },
    /// Load the entity `id`.
    LoadEntity { id: String },
    /// Get an edit token.
    FetchToken,
    /// Post the edit with these parameters.
    Post { params: Vec<(String, String)> },
    /// The statement was written: append `line` to the log. Nothing more.
    Record { line: String },
    /// Nothing more: the work ended as said, and nothing was written.
    Stop(Outcome),
}

/// An action, as text.
pub enum ActionView {
    FetchPageImage { article: Seq<char> },
    CheckArtwork { file: Seq<char> },
    QueryPageId { title: Seq<char>, namespace: int },
    LoadEntity { id: Seq<char> },
    FetchToken,
    Post { params: Seq<(Seq<char>, Seq<char>)> },
    Record { line: Seq<char> },
    Stop(Outcome),
}

impl View for Action {
    type V = ActionView;

    open spec fn view(&self) -> ActionView {
        match *self {
            Action::FetchPageImage { article } => ActionView::FetchPageImage { article: article@ },
            Action::CheckArtwork { file } => ActionView::CheckArtwork { file: file@ },
            Action::QueryPageId { title, namespace } => ActionView::QueryPageId {
                title: title@,
                namespace: namespace as int,
            },
            Action::LoadEntity { id } => ActionView::LoadEntity { id: id@ },
            Action::FetchToken => ActionView::FetchToken,
            Action::Post { params } => ActionView::Post { params: pairs(params@) },
            Action::Record { line } => ActionView::Record { line: line@ },
            Action::Stop(outcome) => ActionView::Stop(outcome),
        }
    }
}

/// The work on one candidate: the statement to make and how far it has got.
#[derive(Clone, Debug, PartialEq, Eq)]
pub struct Submission {
    /// The item that the file depicts.
    pub item: String,
    /// The file, without its namespace.
    pub image: String,
    /// The property of the statement.
    pub property: String,
    /// Whether the account is a bot's.
    pub is_bot: bool,
    pub stage: Stage,
}

/// A submission, as text.
pub struct SubmissionView {
    pub item: Seq<char>,
    pub image: Seq<char>,
    pub property: Seq<char>,
    pub is_bot: bool,
    pub stage: StageView,
}

impl View for Submission {
    type V = SubmissionView;

    open spec fn view(&self) -> SubmissionView {
        SubmissionView {
            item: self.item@,
            image: self.image@,
            property: self.property@,
            is_bot: self.is_bot,
            stage: self.stage@,
        }
    }
}

/// The name of the file page of `image`.
pub open spec fn file_page(image: Seq<char>) -> Seq<char> {
    "File:"@ + image
}

/// The parameters of the edit that a submission posts: one statement of the
/// submission's property on the entity `media_id`, with the item as its
/// value, of preferred rank, with the summary that names the item and no base
/// revision.
pub open spec fn post_params(s: SubmissionView, media_id: Seq<char>, token: Seq<char>) -> Seq<
    (Seq<char>, Seq<char>),
> {
    edit_params(
        media_id,
        claim_data_text(
            SnakType::Value,
            "wikibase-entityid"@,
            s.property,
            entity_value_text(EntityKind::Item, s.item),
            "preferred"@,
        ),
        Some(summary_text(s.item)),
        None,
        s.is_bot,
        token,
    )
}

/// The record, if any, says what the submission wants to state.
pub open spec fn already_stated(s: SubmissionView, known: Option<EntityRecord>) -> bool {
    known matches Some(record) && record.states(s.property, EntityKind::Item, s.item)
}

/// What follows once the metadata entity is known, or known to be missing:
/// nothing where it has the statement, else an edit token is fetched.
pub open spec fn decide(s: SubmissionView, media_id: Seq<char>, known: Option<EntityRecord>) -> (
    StageView,
    ActionView,
) {
    if already_stated(s, known) {
        (StageView::Finished, ActionView::Stop(Outcome::AlreadyStated))
    } else {
        (StageView::AwaitToken { media_id }, ActionView::FetchToken)
    }
}

/// What the cache holds under `id`.
pub open spec fn lookup(cache: Map<Seq<char>, EntityRecord>, id: Seq<char>) -> Option<
    EntityRecord,
> {
    if cache.contains_key(id) {
        Some(cache[id])
    } else {
        None
    }
}

/// The cache once the event is taken in: a loaded entity is stored under its
/// identifier, and an accepted edit drops the entity that was edited.
pub open spec fn cache_after(
    s: SubmissionView,
    cache: Map<Seq<char>, EntityRecord>,
    event: Event,
) -> Map<Seq<char>, EntityRecord> {
    match (s.stage, event) {
        (StageView::AwaitEntity { .. }, Event::Entity(Some(record))) => cache.insert(
            record.id@,
            record,
        ),
        (StageView::AwaitEdit { media_id }, Event::Edited(true)) => cache.remove(media_id),
        _ => cache,
    }
}

/// The next stage and the next action, for each stage and event.
pub open spec fn transition(
    s: SubmissionView,
    cache: Map<Seq<char>, EntityRecord>,
    event: Event,
) -> (StageView, ActionView) {
    match (s.stage, event) {
        (StageView::AwaitPageImage, Event::PageImage(None)) => (
            StageView::Finished,
            ActionView::Stop(Outcome::NoPageImage),
        ),
        (StageView::AwaitPageImage, Event::PageImage(Some(found))) => if found@ == s.image {
            (StageView::AwaitArtwork, ActionView::CheckArtwork { file: file_page(s.image) })
        } else {
            (StageView::Finished, ActionView::Stop(Outcome::ImageMismatch))
        },
        (StageView::AwaitArtwork, Event::Artwork(flagged)) => if flagged {
            (StageView::Finished, ActionView::Stop(Outcome::Artwork))
        } else {
            (StageView::AwaitPageId, ActionView::QueryPageId { title: s.image, namespace: 6 })
        },
        (StageView::AwaitPageId, Event::PageId(Err(why))) => (
            StageView::Finished,
            ActionView::Stop(Outcome::NoPageId(why)),
        ),
        (StageView::AwaitPageId, Event::PageId(Ok(page_id))) => {
            let media_id = media_id_text(page_id as int);
            if cache.contains_key(media_id) {
                decide(s, media_id, Some(cache[media_id]))
            } else {
                (StageView::AwaitEntity { media_id }, ActionView::LoadEntity { id: media_id })
            }
        },
        (StageView::AwaitEntity { media_id }, Event::Entity(_)) => decide(
            s,
            media_id,
            lookup(cache_after(s, cache, event), media_id),
        ),
        (StageView::AwaitToken { media_id }, Event::Token(None)) => (
            StageView::Finished,
            ActionView::Stop(Outcome::EditFailed),
        ),
        (StageView::AwaitToken { media_id }, Event::Token(Some(token))) => (
            StageView::AwaitEdit { media_id },
            ActionView::Post { params: post_params(s, media_id, token@) },
        ),
        (StageView::AwaitEdit { media_id }, Event::Edited(accepted)) => if accepted {
            (StageView::Finished, ActionView::Record { line: record_line(s.item, s.image) })
        } else {
            (StageView::Finished, ActionView::Stop(Outcome::EditFailed))
        },
        _ => (StageView::Finished, ActionView::Stop(Outcome::OutOfTurn)),
    }
}

/// The submission in its next stage.
pub open spec fn moved(s: SubmissionView, stage: StageView) -> SubmissionView {
    SubmissionView { stage, ..s }
}

impl Submission {
    /// Begins the work on a candidate of the structured query. The first
    /// thing asked for is the free page image of its article. `None` for a
    /// candidate without an image.
    pub fn for_article(candidate: &ItemArticleImagesPageImage, property: &str, is_bot: bool) -> (out:
        Option<(Submission, Action)>)
        ensures
            out is Some == candidate.p18 is Some,
            out matches Some((s, action)) ==> {
                &&& s@ == SubmissionView {
                    item: candidate.q@,
                    image: candidate.p18.unwrap()@,
                    property: property@,
                    is_bot,
                    stage: StageView::AwaitPageImage,
                }
                &&& action@ == ActionView::FetchPageImage { article: candidate.article@ }
            },
    {
        match &candidate.p18 {
            None => None,
            Some(image) => Some(
                (
                    Submission {
                        item: candidate.q.clone(),
                        image: image.clone(),
                        property: String::from_str(property),
                        is_bot,
                        stage: Stage::AwaitPageImage,
                    },
                    Action::FetchPageImage { article: candidate.article.clone() },
                ),
            ),
        }
    }

    /// Begins the work on a pair of item and image. The first thing asked
    /// for is whether the file is described as an artwork.
    pub fn for_pair(item: &str, image: &str, property: &str, is_bot: bool) -> (out: (
        Submission,
        Action,
    ))
        ensures
            out.0@ == (SubmissionView {
                item: item@,
                image: image@,
                property: property@,
                is_bot,
                stage: StageView::AwaitArtwork,
            }),
            out.1@ == (ActionView::CheckArtwork { file: file_page(image@) }),
    {
        let mut file = String::from_str("File:");
        file.append(image);
        (
            Submission {
                item: String::from_str(item),
                image: String::from_str(image),
                property: String::from_str(property),
                is_bot,
                stage: Stage::AwaitArtwork,
            },
            Action::CheckArtwork { file },
        )
    }

    /// Begins the work on a pair of item and file at the file's page
    /// identifier, with no check before it.
    pub fn at_page_id(item: &str, image: &str, property: &str, is_bot: bool) -> (out: (
        Submission,
        Action,
    ))
        ensures
            out.0@ == (SubmissionView {
                item: item@,
                image: image@,
                property: property@,
                is_bot,
                stage: StageView::AwaitPageId,
            }),
            out.1@ == (ActionView::QueryPageId { title: image@, namespace: 6 }),
    {
        (
            Submission {
                item: String::from_str(item),
                image: String::from_str(image),
                property: String::from_str(property),
                is_bot,
                stage: Stage::AwaitPageId,
            },
            Action::QueryPageId { title: String::from_str(image), namespace: 6 },
        )
    }

    fn decide_on(&self, media_id: String, known: Option<&EntityRecord>) -> (out: (Stage, Action))
        ensures
            (out.0@, out.1@) == decide(
                self@,
                media_id@,
                match known {
                    Some(r) => Some(*r),
                    None => None,
                },
            ),
    {
        let stated = match known {
            Some(record) => record.has_statement(
                self.property.as_str(),
                EntityKind::Item,
                self.item.as_str(),
            ),
            None => false,
        };
        if stated {
            (Stage::Finished, Action::Stop(Outcome::AlreadyStated))
        } else {
            (Stage::AwaitToken { media_id }, Action::FetchToken)
        }
    }

    fn react(&self, cache: &mut EntityCache, event: Event) -> (out: (Stage, Action))
        requires
            old(cache).wf(),
        ensures
            final(cache).wf(),
            final(cache)@ == cache_after(self@, old(cache)@, event),
            (out.0@, out.1@) == transition(self@, old(cache)@, event),
    {
        match &self.stage {
            Stage::AwaitPageImage => match event {
                Event::PageImage(None) => (Stage::Finished, Action::Stop(Outcome::NoPageImage)),
                Event::PageImage(Some(found)) => {
                    if same_text(found.as_str(), self.image.as_str()) {
                        let mut file = String::from_str("File:");
                        file.append(self.image.as_str());
                        (Stage::AwaitArtwork, Action::CheckArtwork { file })
                    } else {
                        (Stage::Finished, Action::Stop(Outcome::ImageMismatch))
                    }
                },
                _ => (Stage::Finished, Action::Stop(Outcome::OutOfTurn)),
            },
            Stage::AwaitArtwork => match event {
                Event::Artwork(flagged) => {
                    if flagged {
                        (Stage::Finished, Action::Stop(Outcome::Artwork))
                    } else {
                        (
                            Stage::AwaitPageId,
                            Action::QueryPageId { title: self.image.clone(), namespace: 6 },
                        )
                    }
                },
                _ => (Stage::Finished, Action::Stop(Outcome::OutOfTurn)),
            },
            Stage::AwaitPageId => match event {
                Event::PageId(Err(why)) => (Stage::Finished, Action::Stop(Outcome::NoPageId(why))),
                Event::PageId(Ok(page_id)) => {
                    let media_id = media_entity_id(page_id);
                    match cache.get_entity(media_id.as_str()) {
                        Some(record) => self.decide_on(media_id, Some(record)),
                        None => (
                            Stage::AwaitEntity { media_id: media_id.clone() },
                            Action::LoadEntity { id: media_id },
                        ),
                    }
                },
                _ => (Stage::Finished, Action::Stop(Outcome::OutOfTurn)),
            },
            Stage::AwaitEntity { media_id } => match event {
                Event::Entity(loaded) => {
                    match loaded {
                        Some(record) => {
                            cache.set_entity(record);
                        },
                        None => {},
                    }
                    let known = cache.get_entity(media_id.as_str());
                    self.decide_on(media_id.clone(), known)
                },
                _ => (Stage::Finished, Action::Stop(Outcome::OutOfTurn)),
            },
            Stage::AwaitToken { media_id } => match event {
                Event::Token(None) => (Stage::Finished, Action::Stop(Outcome::EditFailed)),
                Event::Token(Some(token)) => {
                    let statement = Statement::about_item(
                        media_id.as_str(),
                        self.property.as_str(),
                        self.item.as_str(),
                    );
                    match statement.request(self.is_bot, token) {
                        Some(params) => (
                            Stage::AwaitEdit { media_id: media_id.clone() },
                            Action::Post { params },
                        ),
                        None => vstd::pervasive::unreached(),
                    }
                },
                _ => (Stage::Finished, Action::Stop(Outcome::OutOfTurn)),
            },
            Stage::AwaitEdit { media_id } => match event {
                Event::Edited(accepted) => {
                    if accepted {
                        let _ = cache.remove_entity(media_id.as_str());
                        (
                            Stage::Finished,
                            Action::Record {
                                line: log_line(self.item.as_str(), self.image.as_str()),
                            },
                        )
                    } else {
                        (Stage::Finished, Action::Stop(Outcome::EditFailed))
                    }
                },
                _ => (Stage::Finished, Action::Stop(Outcome::OutOfTurn)),
            },
            Stage::Finished => (Stage::Finished, Action::Stop(Outcome::OutOfTurn)),
        }
    }

    /// Takes in what came of the last action and says what to do next. A
    /// loaded entity goes into the cache; an accepted edit drops the edited
    /// entity from it and has the pair recorded in the log.
    pub fn step(self, cache: &mut EntityCache, event: Event) -> (out: (Submission, Action))
        requires
            old(cache).wf(),
        ensures
            final(cache).wf(),
            final(cache)@ == cache_after(self@, old(cache)@, event),
            out.0@ == moved(self@, transition(self@, old(cache)@, event).0),
            out.1@ == transition(self@, old(cache)@, event).1,
    {
        let (stage, action) = self.react(cache, event);
        (
            Submission {
                item: self.item,
                image: self.image,
                property: self.property,
                is_bot: self.is_bot,
                stage,
            },
            action,
        )
    }
}

} // verus!
