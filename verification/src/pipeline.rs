//! The stages that narrow a list of candidates, each on its own, so that a
//! caller can run them in the order it needs.

use crate::cache::EntityCache;
use crate::candidate::{CategoryItemImage, ItemArticleImagesPageImage};
use crate::entity::{ClaimValue, EntityRecord};
use crate::log::{in_log, logged, texts};
use crate::seqs::{filter_map, lemma_filter_map_origin, lemma_filter_map_step};
use vstd::prelude::*;

verus! {

/// The record says that its entity is a category: it is an instance
/// (`P31`) of `Q4167836`.
pub open spec fn is_category(record: EntityRecord) -> bool {
    record.targets("P31"@, "Q4167836"@)
}

/// Whether the record says that its entity is a category.
pub fn record_is_category(record: &EntityRecord) -> (out: bool)
    ensures
        out == is_category(*record),
{
    record.has_target_entity("P31", "Q4167836")
}

/// The items that the candidates name, in order: what has to be in the cache
/// before the stages that read records run.
pub open spec fn named_items(candidates: Seq<CategoryItemImage>) -> Seq<String> {
    filter_map(candidates, |c: CategoryItemImage| c.item)
}

/// The items that the candidates name.
pub fn items_of(candidates: &Vec<CategoryItemImage>) -> (out: Vec<String>)
    ensures
        out@ == named_items(candidates@),
{
    let mut out: Vec<String> = Vec::new();
    let mut i: usize = 0;
    while i < candidates.len()
        invariant
            i <= candidates.len(),
            out@ == named_items(candidates@.take(i as int)),
        decreases candidates.len() - i,
    {
        proof {
            lemma_filter_map_step(candidates@, |c: CategoryItemImage| c.item, i as int);
        }
        match &candidates[i].item {
            Some(item) => {
                out.push(item.clone());
            },
            None => {},
        }
        i += 1;
    }
    proof {
        assert(candidates@.take(candidates.len() as int) =~= candidates@);
    }
    out
}

/// The candidate redirected to its main topic. A candidate is kept where its
/// item is in the cache, is a category, and the first value of its main topic
/// (`P301`) is an entity: that entity becomes the item. Every other candidate
/// is dropped.
pub open spec fn topic_of(
    candidate: CategoryItemImage,
    cache: Map<Seq<char>, EntityRecord>,
) -> Option<CategoryItemImage> {
    match candidate.item {
        None => None,
        Some(item) => if cache.contains_key(item@) && is_category(cache[item@]) {
            match cache[item@].first_value_of("P301"@) {
                Some(ClaimValue::Entity { kind, id }) => Some(
                    CategoryItemImage {
                        category: candidate.category,
                        item: Some(id),
                        image: candidate.image,
                    },
                ),
                _ => None,
            }
        } else {
            None
        },
    }
}

/// The rule of the stage that redirects candidates to their main topics.
pub open spec fn topic_rule(cache: Map<Seq<char>, EntityRecord>) -> spec_fn(
    CategoryItemImage,
) -> Option<CategoryItemImage> {
    |c: CategoryItemImage| topic_of(c, cache)
}

/// Redirects each candidate to its main topic and drops those that have
/// none. The second list holds the new items, which are to be loaded.
pub fn resolve_topics(candidates: &Vec<CategoryItemImage>, cache: &EntityCache) -> (out: (
    Vec<CategoryItemImage>,
    Vec<String>,
))
    requires
        cache.wf(),
    ensures
        out.0@ == filter_map(candidates@, topic_rule(cache@)),
        out.1@ == named_items(out.0@),
        out.1@.len() == out.0@.len(),
{
    let mut kept: Vec<CategoryItemImage> = Vec::new();
    let mut to_load: Vec<String> = Vec::new();
    let mut i: usize = 0;
    while i < candidates.len()
        invariant
            i <= candidates.len(),
            cache.wf(),
            kept@ == filter_map(candidates@.take(i as int), topic_rule(cache@)),
            to_load@ == named_items(kept@),
            to_load@.len() == kept@.len(),
        decreases candidates.len() - i,
    {
        proof {
            lemma_filter_map_step(candidates@, topic_rule(cache@), i as int);
        }
        let candidate = &candidates[i];
        let topic: Option<String> = match &candidate.item {
            None => None,
            Some(item) => match cache.get_entity(item.as_str()) {
                None => None,
                Some(record) => if record_is_category(record) {
                    match record.first_value("P301") {
                        Some(ClaimValue::Entity { kind: _, id }) => Some(id),
                        _ => None,
                    }
                } else {
                    None
                },
            },
        };
        match topic {
            Some(id) => {
                let redirected = CategoryItemImage {
                    category: candidate.category.clone(),
                    item: Some(id.clone()),
                    image: match &candidate.image {
                        Some(s) => Some(s.clone()),
                        None => None,
                    },
                };
                proof {
                    assert(topic_of(candidates@[i as int], cache@) == Some(redirected));
                    assert(kept@.push(redirected).drop_last() =~= kept@);
                    assert(named_items(kept@.push(redirected)) == named_items(kept@).push(id));
                }
                kept.push(redirected);
                to_load.push(id);
            },
            None => {},
        }
        i += 1;
    }
    proof {
        assert(candidates@.take(candidates.len() as int) =~= candidates@);
    }
    (kept, to_load)
}

/// The candidate with the image of its item: the first string among the
/// values of the item's image property (`P18`). A candidate whose item is not
/// in the cache or declares no image is dropped.
pub open spec fn with_image(
    candidate: CategoryItemImage,
    cache: Map<Seq<char>, EntityRecord>,
) -> Option<CategoryItemImage> {
    match candidate.item {
        None => None,
        Some(item) => if cache.contains_key(item@) {
            match cache[item@].first_string_of("P18"@) {
                Some(image) => Some(
                    CategoryItemImage {
                        category: candidate.category,
                        item: candidate.item,
                        image: Some(image),
                    },
                ),
                None => None,
            }
        } else {
            None
        },
    }
}

/// The rule of the stage that resolves images.
pub open spec fn image_rule(cache: Map<Seq<char>, EntityRecord>) -> spec_fn(
    CategoryItemImage,
) -> Option<CategoryItemImage> {
    |c: CategoryItemImage| with_image(c, cache)
}

/// Gives each candidate the image that its item declares and drops those
/// without one.
pub fn resolve_images(candidates: &Vec<CategoryItemImage>, cache: &EntityCache) -> (out: Vec<
    CategoryItemImage,
>)
    requires
        cache.wf(),
    ensures
        out@ == filter_map(candidates@, image_rule(cache@)),
{
    let mut kept: Vec<CategoryItemImage> = Vec::new();
    let mut i: usize = 0;
    while i < candidates.len()
        invariant
            i <= candidates.len(),
            cache.wf(),
            kept@ == filter_map(candidates@.take(i as int), image_rule(cache@)),
        decreases candidates.len() - i,
    {
        proof {
            lemma_filter_map_step(candidates@, image_rule(cache@), i as int);
        }
        let candidate = &candidates[i];
        match &candidate.item {
            None => {},
            Some(item) => match cache.get_entity(item.as_str()) {
                None => {},
                Some(record) => match record.first_string_value("P18") {
                    Some(image) => {
                        kept.push(
                            CategoryItemImage {
                                category: candidate.category.clone(),
                                item: Some(item.clone()),
                                image: Some(image),
                            },
                        );
                    },
                    None => {},
                },
            },
        }
        i += 1;
    }
    proof {
        assert(candidates@.take(candidates.len() as int) =~= candidates@);
    }
    kept
}

/// The pair `(item, image)` is in the log.
pub open spec fn pair_logged(lines: Seq<String>, item: Seq<char>, image: Seq<char>) -> bool {
    logged(lines, seq![item, image])
}

/// Whether the pair `(item, image)` is in the log.
pub fn is_pair_logged(lines: &Vec<String>, item: &String, image: &String) -> (out: bool)
    ensures
        out == pair_logged(lines@, item@, image@),
{
    let mut parts: Vec<&String> = Vec::new();
    parts.push(item);
    parts.push(image);
    proof {
        assert(texts(parts@) =~= seq![item@, image@]);
    }
    in_log(lines, &parts)
}

/// The candidate, unless it lacks an item or an image or its pair is in the
/// log.
pub open spec fn unlogged(candidate: CategoryItemImage, lines: Seq<String>) -> Option<
    CategoryItemImage,
> {
    match (candidate.item, candidate.image) {
        (Some(item), Some(image)) => if pair_logged(lines, item@, image@) {
            None
        } else {
            Some(candidate)
        },
        _ => None,
    }
}

/// The rule of the stage that drops what the log already holds.
pub open spec fn unlogged_rule(lines: Seq<String>) -> spec_fn(CategoryItemImage) -> Option<
    CategoryItemImage,
> {
    |c: CategoryItemImage| unlogged(c, lines)
}

/// Drops the candidates whose pair `(item, image)` is in the log, and those
/// that lack an item or an image.
pub fn drop_logged(candidates: &Vec<CategoryItemImage>, lines: &Vec<String>) -> (out: Vec<
    CategoryItemImage,
>)
    ensures
        out@ == filter_map(candidates@, unlogged_rule(lines@)),
{
    let mut kept: Vec<CategoryItemImage> = Vec::new();
    let mut i: usize = 0;
    while i < candidates.len()
        invariant
            i <= candidates.len(),
            kept@ == filter_map(candidates@.take(i as int), unlogged_rule(lines@)),
        decreases candidates.len() - i,
    {
        proof {
            lemma_filter_map_step(candidates@, unlogged_rule(lines@), i as int);
        }
        let candidate = &candidates[i];
        match (&candidate.item, &candidate.image) {
            (Some(item), Some(image)) => {
                if !is_pair_logged(lines, item, image) {
                    kept.push(candidate.duplicate());
                }
            },
            _ => {},
        }
        i += 1;
    }
    proof {
        assert(candidates@.take(candidates.len() as int) =~= candidates@);
    }
    kept
}

/// No candidate whose pair is in the log passes the stage that drops what
/// the log holds: whatever passes has a pair that the log lacks.
pub proof fn lemma_logged_are_dropped(
    candidates: Seq<CategoryItemImage>,
    lines: Seq<String>,
    k: int,
)
    requires
        0 <= k < filter_map(candidates, unlogged_rule(lines)).len(),
    ensures
        ({
            let passed = filter_map(candidates, unlogged_rule(lines))[k];
            &&& passed.item is Some
            &&& passed.image is Some
            &&& !pair_logged(lines, passed.item.unwrap()@, passed.image.unwrap()@)
        }),
{
    lemma_filter_map_origin(candidates, unlogged_rule(lines), k);
}

/// A candidate whose pair of item and image is in the log does not pass the
/// stage that drops what the log holds, whatever else is in the list.
pub proof fn lemma_logged_never_pass(
    candidates: Seq<CategoryItemImage>,
    lines: Seq<String>,
    candidate: CategoryItemImage,
)
    requires
        candidate.item matches Some(item) && candidate.image matches Some(image) && pair_logged(
            lines,
            item@,
            image@,
        ),
    ensures
        !filter_map(candidates, unlogged_rule(lines)).contains(candidate),
{
    let passed = filter_map(candidates, unlogged_rule(lines));
    if passed.contains(candidate) {
        let k = choose|k: int| 0 <= k < passed.len() && passed[k] == candidate;
        lemma_logged_are_dropped(candidates, lines, k);
    }
}

/// The candidate, provided that its item is in the cache and is no
/// category.
pub open spec fn revalidated(
    candidate: CategoryItemImage,
    cache: Map<Seq<char>, EntityRecord>,
) -> Option<CategoryItemImage> {
    match candidate.item {
        None => None,
        Some(item) => if cache.contains_key(item@) && !is_category(cache[item@]) {
            Some(candidate)
        } else {
            None
        },
    }
}

/// The rule of the stage that looks at each item once more.
pub open spec fn revalidation_rule(cache: Map<Seq<char>, EntityRecord>) -> spec_fn(
    CategoryItemImage,
) -> Option<CategoryItemImage> {
    |c: CategoryItemImage| revalidated(c, cache)
}

/// Drops the candidates whose item is missing from the cache or is still a
/// category.
pub fn revalidate(candidates: &Vec<CategoryItemImage>, cache: &EntityCache) -> (out: Vec<
    CategoryItemImage,
>)
    requires
        cache.wf(),
    ensures
        out@ == filter_map(candidates@, revalidation_rule(cache@)),
{
    let mut kept: Vec<CategoryItemImage> = Vec::new();
    let mut i: usize = 0;
    while i < candidates.len()
        invariant
            i <= candidates.len(),
            cache.wf(),
            kept@ == filter_map(candidates@.take(i as int), revalidation_rule(cache@)),
        decreases candidates.len() - i,
    {
        proof {
            lemma_filter_map_step(candidates@, revalidation_rule(cache@), i as int);
        }
        let candidate = &candidates[i];
        match &candidate.item {
            None => {},
            Some(item) => match cache.get_entity(item.as_str()) {
                None => {},
                Some(record) => {
                    if !record_is_category(record) {
                        kept.push(candidate.duplicate());
                    }
                },
            },
        }
        i += 1;
    }
    proof {
        assert(candidates@.take(candidates.len() as int) =~= candidates@);
    }
    kept
}

/// The candidate of the structured query, unless it has no image or its pair
/// of item and image is in the log.
pub open spec fn article_unlogged(candidate: ItemArticleImagesPageImage, lines: Seq<String>) -> bool {
    candidate.p18 matches Some(image) && !pair_logged(lines, candidate.q@, image@)
}

/// Which candidates of the structured query go on: for each, whether it has
/// an image and its pair of item and image is not in the log.
pub fn unlogged_articles(candidates: &Vec<ItemArticleImagesPageImage>, lines: &Vec<String>) -> (out:
    Vec<bool>)
    ensures
        out@.len() == candidates@.len(),
        forall|i: int|
            0 <= i < candidates@.len() ==> out@[i] == article_unlogged(
                #[trigger] candidates@[i],
                lines@,
            ),
{
    let mut out: Vec<bool> = Vec::new();
    let mut i: usize = 0;
    while i < candidates.len()
        invariant
            i <= candidates.len(),
            out@.len() == i,
            forall|k: int|
                0 <= k < i ==> out@[k] == article_unlogged(#[trigger] candidates@[k], lines@),
        decreases candidates.len() - i,
    {
        let keep = match &candidates[i].p18 {
            Some(image) => !is_pair_logged(lines, &candidates[i].q, image),
            None => false,
        };
        out.push(keep);
        i += 1;
    }
    out
}

} // verus!
