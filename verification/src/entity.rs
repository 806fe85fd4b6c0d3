//! Entity records of the knowledge base, reduced to what the bot reads: the
//! property of each statement and the value of its main snak.

use crate::text::same_text;
use vstd::prelude::*;

verus! {

/// The kinds of entity that a value can refer to.
#[derive(Clone, Copy, Debug, PartialEq, Eq, Structural)]
pub enum EntityKind {
    Item,
    Property,
    MediaInfo,
    Lexeme,
    LexemeSense,
    LexemeForm,
    EntitySchema,
}

/// The value of a statement's main snak. Entity references and strings are
/// kept; every other kind of value is `Other`.
#[derive(Clone, Debug, PartialEq, Eq)]
pub enum ClaimValue {
    Entity { kind: EntityKind, id: String },
    StringValue(String),
    Other,
}

/// One statement: its property and, unless the snak has no value, its value.
#[derive(Clone, Debug, PartialEq, Eq)]
pub struct Claim {
    pub property: String,
    pub value: Option<ClaimValue>,
}

/// One entity with its statements, in the order of the record.
#[derive(Clone, Debug, PartialEq, Eq)]
pub struct EntityRecord {
    pub id: String,
    pub claims: Vec<Claim>,
}

impl ClaimValue {
    /// The value refers to the entity `id` of kind `kind`.
    pub open spec fn names(self, kind: EntityKind, id: Seq<char>) -> bool {
        self matches ClaimValue::Entity { kind: k, id: i } && k == kind && i@ == id
    }

    /// The value refers to the entity `id`, of whatever kind.
    pub open spec fn targets(self, id: Seq<char>) -> bool {
        self matches ClaimValue::Entity { id: i, .. } && i@ == id
    }

    /// Whether the value refers to the entity `id` of kind `kind`.
    pub fn is_entity(&self, kind: EntityKind, id: &str) -> (out: bool)
        ensures
            out == self.names(kind, id@),
    {
        match self {
            ClaimValue::Entity { kind: k, id: i } => *k == kind && same_text(i.as_str(), id),
            _ => false,
        }
    }

    /// Whether the value refers to the entity `id`.
    pub fn has_target(&self, id: &str) -> (out: bool)
        ensures
            out == self.targets(id@),
    {
        match self {
            ClaimValue::Entity { id: i, .. } => same_text(i.as_str(), id),
            _ => false,
        }
    }

    /// A copy of the value.
    pub fn duplicate(&self) -> (out: ClaimValue)
        ensures
            out == *self,
    {
        match self {
            ClaimValue::Entity { kind, id } => ClaimValue::Entity { kind: *kind, id: id.clone() },
            ClaimValue::StringValue(s) => ClaimValue::StringValue(s.clone()),
            ClaimValue::Other => ClaimValue::Other,
        }
    }
}

impl Claim {
    /// The statement is about `property` and has a value.
    pub open spec fn gives(self, property: Seq<char>) -> bool {
        self.property@ == property && self.value is Some
    }

    /// The statement is about `property` and its value is a string.
    pub open spec fn gives_string(self, property: Seq<char>) -> bool {
        self.property@ == property && self.value matches Some(ClaimValue::StringValue(_))
    }

    /// The statement is about `property` and refers to the entity `target`.
    pub open spec fn points_to(self, property: Seq<char>, target: Seq<char>) -> bool {
        &&& self.property@ == property
        &&& self.value matches Some(v)
        &&& v.targets(target)
    }

    /// The statement is about `property` and refers to the entity `id` of
    /// kind `kind`.
    pub open spec fn asserts(self, property: Seq<char>, kind: EntityKind, id: Seq<char>) -> bool {
        &&& self.property@ == property
        &&& self.value matches Some(v)
        &&& v.names(kind, id)
    }

    /// A copy of the statement.
    pub fn duplicate(&self) -> (out: Claim)
        ensures
            out == *self,
    {
        let value = match &self.value {
            Some(v) => Some(v.duplicate()),
            None => None,
        };
        Claim { property: self.property.clone(), value }
    }
}

/// The values of the statements of `claims` about `property`, in order;
/// statements without a value are passed over.
pub open spec fn values_of(claims: Seq<Claim>, property: Seq<char>) -> Seq<ClaimValue>
    decreases claims.len(),
{
    if claims.len() == 0 {
        Seq::empty()
    } else {
        let before = values_of(claims.drop_last(), property);
        if claims.last().gives(property) {
            before.push(claims.last().value.unwrap())
        } else {
            before
        }
    }
}

/// `i` is the first statement of `claims` about `property` that has a value.
pub open spec fn is_first_value(claims: Seq<Claim>, property: Seq<char>, i: int) -> bool {
    &&& 0 <= i < claims.len()
    &&& claims[i].gives(property)
    &&& forall|k: int| 0 <= k < i ==> !claims[k].gives(property)
}

/// `i` is the first statement of `claims` about `property` whose value is a
/// string.
pub open spec fn is_first_string(claims: Seq<Claim>, property: Seq<char>, i: int) -> bool {
    &&& 0 <= i < claims.len()
    &&& claims[i].gives_string(property)
    &&& forall|k: int| 0 <= k < i ==> !claims[k].gives_string(property)
}

impl EntityRecord {
    /// Some statement about `property` refers to the entity `target`.
    pub open spec fn targets(self, property: Seq<char>, target: Seq<char>) -> bool {
        exists|i: int| 0 <= i < self.claims@.len() && self.claims@[i].points_to(property, target)
    }

    /// Some statement about `property` refers to the entity `id` of kind
    /// `kind`.
    pub open spec fn states(self, property: Seq<char>, kind: EntityKind, id: Seq<char>) -> bool {
        exists|i: int| 0 <= i < self.claims@.len() && self.claims@[i].asserts(property, kind, id)
    }

    /// The first value among the statements about `property`.
    pub open spec fn first_value_of(self, property: Seq<char>) -> Option<ClaimValue> {
        if exists|i: int| is_first_value(self.claims@, property, i) {
            let i = choose|i: int| is_first_value(self.claims@, property, i);
            self.claims@[i].value
        } else {
            None
        }
    }

    /// The first string among the values of the statements about `property`.
    pub open spec fn first_string_of(self, property: Seq<char>) -> Option<String> {
        if exists|i: int| is_first_string(self.claims@, property, i) {
            let i = choose|i: int| is_first_string(self.claims@, property, i);
            match self.claims@[i].value {
                Some(ClaimValue::StringValue(s)) => Some(s),
                _ => None,
            }
        } else {
            None
        }
    }

    /// The values of the statements about `property`, in order.
    pub fn values_for_property(&self, property: &str) -> (out: Vec<ClaimValue>)
        ensures
            out@ == values_of(self.claims@, property@),
    {
        let mut out: Vec<ClaimValue> = Vec::new();
        let mut i: usize = 0;
        while i < self.claims.len()
            invariant
                i <= self.claims.len(),
                out@ == values_of(self.claims@.take(i as int), property@),
            decreases self.claims.len() - i,
        {
            proof {
                assert(self.claims@.take(i + 1).drop_last() =~= self.claims@.take(i as int));
            }
            if same_text(self.claims[i].property.as_str(), property) {
                match &self.claims[i].value {
                    Some(v) => {
                        out.push(v.duplicate());
                    },
                    None => {},
                }
            }
            i += 1;
        }
        proof {
            assert(self.claims@.take(self.claims.len() as int) =~= self.claims@);
        }
        out
    }

    /// Whether some statement about `property` refers to the entity `target`.
    pub fn has_target_entity(&self, property: &str, target: &str) -> (out: bool)
        ensures
            out == self.targets(property@, target@),
    {
        let mut i: usize = 0;
        while i < self.claims.len()
            invariant
                i <= self.claims.len(),
                forall|k: int| 0 <= k < i ==> !self.claims@[k].points_to(property@, target@),
            decreases self.claims.len() - i,
        {
            if same_text(self.claims[i].property.as_str(), property) {
                match &self.claims[i].value {
                    Some(v) => {
                        if v.has_target(target) {
                            return true;
                        }
                    },
                    None => {},
                }
            }
            i += 1;
        }
        false
    }

    /// Whether some statement about `property` refers to the entity `id` of
    /// kind `kind`.
    pub fn has_statement(&self, property: &str, kind: EntityKind, id: &str) -> (out: bool)
        ensures
            out == self.states(property@, kind, id@),
    {
        let mut i: usize = 0;
        while i < self.claims.len()
            invariant
                i <= self.claims.len(),
                forall|k: int| 0 <= k < i ==> !self.claims@[k].asserts(property@, kind, id@),
            decreases self.claims.len() - i,
        {
            if same_text(self.claims[i].property.as_str(), property) {
                match &self.claims[i].value {
                    Some(v) => {
                        if v.is_entity(kind, id) {
                            return true;
                        }
                    },
                    None => {},
                }
            }
            i += 1;
        }
        false
    }

    /// The first value among the statements about `property`.
    pub fn first_value(&self, property: &str) -> (out: Option<ClaimValue>)
        ensures
            out == self.first_value_of(property@),
    {
        let mut i: usize = 0;
        while i < self.claims.len()
            invariant
                i <= self.claims.len(),
                forall|k: int| 0 <= k < i ==> !self.claims@[k].gives(property@),
            decreases self.claims.len() - i,
        {
            if same_text(self.claims[i].property.as_str(), property) {
                match &self.claims[i].value {
                    Some(v) => {
                        proof {
                            assert(is_first_value(self.claims@, property@, i as int));
                            let c = choose|c: int| is_first_value(self.claims@, property@, c);
                            assert(c == i);
                        }
                        return Some(v.duplicate());
                    },
                    None => {},
                }
            }
            i += 1;
        }
        None
    }

    /// The first string among the values of the statements about `property`.
    pub fn first_string_value(&self, property: &str) -> (out: Option<String>)
        ensures
            out == self.first_string_of(property@),
    {
        let mut i: usize = 0;
        while i < self.claims.len()
            invariant
                i <= self.claims.len(),
                forall|k: int| 0 <= k < i ==> !self.claims@[k].gives_string(property@),
            decreases self.claims.len() - i,
        {
            if same_text(self.claims[i].property.as_str(), property) {
                match &self.claims[i].value {
                    Some(ClaimValue::StringValue(s)) => {
                        proof {
                            assert(is_first_string(self.claims@, property@, i as int));
                            let c = choose|c: int| is_first_string(self.claims@, property@, c);
                            assert(c == i);
                        }
                        return Some(s.clone());
                    },
                    _ => {},
                }
            }
            i += 1;
        }
        None
    }

    /// A copy of the record.
    pub fn duplicate(&self) -> (out: EntityRecord)
        ensures
            out.id == self.id,
            out.claims@ == self.claims@,
    {
        let mut claims: Vec<Claim> = Vec::new();
        let mut i: usize = 0;
        while i < self.claims.len()
            invariant
                i <= self.claims.len(),
                claims@ == self.claims@.take(i as int),
            decreases self.claims.len() - i,
        {
            claims.push(self.claims[i].duplicate());
            i += 1;
        }
        proof {
            assert(self.claims@.take(self.claims.len() as int) =~= self.claims@);
        }
        EntityRecord { id: self.id.clone(), claims }
    }
}

} // verus!
