//! Decks and tags: their names, how selections of them are read, and the rule that no two
//! of a kind share a name when case is ignored.

use vstd::prelude::*;

use crate::entity::EntityKind;
use crate::error::{LibraryError, LibraryResult};
use crate::id_set::{insert_text, lemma_ascending_lists_of_one_set_are_equal, strictly_ascending};
use crate::models::concepts::NamedItem;
use crate::text::{lemma_trim_idempotent, lowercase, texts, to_lowercase, trim, trimmed};

verus! {

broadcast use vstd::seq_lib::group_seq_properties;

/// A deck or tag has a name of at most this many characters.
pub const MAXIMUM_ORGANIZATION_NAME_LENGTH: usize = 80;

/// The two ways concepts are organized.
#[derive(Clone, Copy, Debug, PartialEq, Eq, Structural)]
pub enum OrganizationKind {
    Deck,
    Tag,
}

impl OrganizationKind {
    /// How the name field of this kind is called in messages.
    pub fn display_name(self) -> (s: &'static str)
        ensures
            s@ == (match self {
                OrganizationKind::Deck => "Deck name"@,
                OrganizationKind::Tag => "Tag name"@,
            }),
    {
        match self {
            OrganizationKind::Deck => "Deck name",
            OrganizationKind::Tag => "Tag name",
        }
    }

    /// The entity kind of records of this kind.
    pub fn entity_kind(self) -> (k: EntityKind)
        ensures
            k == (match self {
                OrganizationKind::Deck => EntityKind::Deck,
                OrganizationKind::Tag => EntityKind::Tag,
            }),
    {
        match self {
            OrganizationKind::Deck => EntityKind::Deck,
            OrganizationKind::Tag => EntityKind::Tag,
        }
    }

    /// The noun for one record of this kind.
    pub open spec fn noun_text(self) -> Seq<char> {
        match self {
            OrganizationKind::Deck => "deck"@,
            OrganizationKind::Tag => "tag"@,
        }
    }

    /// The noun for one record of this kind.
    pub fn noun(self) -> (s: &'static str)
        ensures
            s@ == self.noun_text(),
    {
        match self {
            OrganizationKind::Deck => "deck",
            OrganizationKind::Tag => "tag",
        }
    }

    /// The table that stores records of this kind.
    pub fn table(self) -> (s: &'static str)
        ensures
            s@ == (match self {
                OrganizationKind::Deck => "decks"@,
                OrganizationKind::Tag => "tags"@,
            }),
    {
        match self {
            OrganizationKind::Deck => "decks",
            OrganizationKind::Tag => "tags",
        }
    }

    /// The table that records which concepts belong to which records of this kind.
    pub fn membership_table(self) -> (s: &'static str)
        ensures
            s@ == (match self {
                OrganizationKind::Deck => "concept_decks"@,
                OrganizationKind::Tag => "concept_tags"@,
            }),
    {
        match self {
            OrganizationKind::Deck => "concept_decks",
            OrganizationKind::Tag => "concept_tags",
        }
    }

    /// The column of the membership table that names the record of this kind.
    pub fn membership_column(self) -> (s: &'static str)
        ensures
            s@ == (match self {
                OrganizationKind::Deck => "deck_id"@,
                OrganizationKind::Tag => "tag_id"@,
            }),
    {
        match self {
            OrganizationKind::Deck => "deck_id",
            OrganizationKind::Tag => "tag_id",
        }
    }
}

/// The texts with surrounding whitespace removed.
pub open spec fn trimmed_texts(ids: Seq<Seq<char>>) -> Seq<Seq<char>> {
    ids.map_values(|s: Seq<char>| trim(s))
}

/// Some identifier is blank once trimmed.
pub open spec fn has_blank_id(ids: Seq<Seq<char>>) -> bool {
    exists|i: int| 0 <= i < ids.len() && #[trigger] trim(ids[i]).len() == 0
}

/// Reads a selection of identifiers: each is trimmed, a blank one is an invalid selection
/// of `kind`, and the result is the set of trimmed identifiers.
pub fn normalize_ids(ids: Vec<String>, kind: &'static str) -> (r: LibraryResult<Vec<String>>)
    ensures
        r is Err <==> has_blank_id(texts(ids@)),
        r matches Err(e) ==> (e matches LibraryError::InvalidSelection { kind: k, id } && k == kind
            && id@.len() == 0),
        r matches Ok(v) ==> strictly_ascending(texts(v@)) && texts(v@).to_set() == trimmed_texts(
            texts(ids@),
        ).to_set(),
{
    let ghost given = texts(ids@);
    let mut set: Vec<String> = Vec::new();
    let mut i: usize = 0;
    while i < ids.len()
        invariant
            given == texts(ids@),
            i <= ids.len(),
            strictly_ascending(texts(set@)),
            texts(set@).to_set() == trimmed_texts(given).take(i as int).to_set(),
            forall|j: int| 0 <= j < i ==> #[trigger] trim(given[j]).len() > 0,
        decreases ids.len() - i,
    {
        let id = trimmed(ids[i].as_str());
        if id.unicode_len() == 0 {
            assert(trim(given[i as int]).len() == 0);
            return Err(LibraryError::InvalidSelection { kind, id });
        }
        insert_text(&mut set, id);
        assert(trimmed_texts(given).take(i + 1) =~= trimmed_texts(given).take(i as int).push(
            trim(given[i as int]),
        ));
        i = i + 1;
    }
    assert(trimmed_texts(given).take(i as int) =~= trimmed_texts(given));
    Ok(set)
}

/// The identifiers of the items.
pub open spec fn item_id_texts(items: Seq<NamedItem>) -> Seq<Seq<char>> {
    items.map_values(|item: NamedItem| item.id@)
}

/// The set of identifiers of the items.
pub fn item_ids(items: &Vec<NamedItem>) -> (r: Vec<String>)
    ensures
        strictly_ascending(texts(r@)),
        texts(r@).to_set() == item_id_texts(items@).to_set(),
{
    let mut set: Vec<String> = Vec::new();
    let mut i: usize = 0;
    while i < items.len()
        invariant
            i <= items.len(),
            strictly_ascending(texts(set@)),
            texts(set@).to_set() == item_id_texts(items@).take(i as int).to_set(),
        decreases items.len() - i,
    {
        insert_text(&mut set, items[i].id.clone());
        assert(item_id_texts(items@).take(i + 1) =~= item_id_texts(items@).take(i as int).push(
            items@[i as int].id@,
        ));
        i = i + 1;
    }
    assert(item_id_texts(items@).take(i as int) =~= item_id_texts(items@));
    set
}

/// Some item other than `excluded` has `name`, ignoring case.
pub open spec fn name_taken(items: Seq<NamedItem>, name: Seq<char>, excluded: Option<Seq<char>>) -> bool {
    exists|i: int|
        0 <= i < items.len() && excluded != Some(items[i].id@) && #[trigger] lowercase(items[i].name@)
            == lowercase(name)
}

/// Refuses `name` when another item of the kind called `kind` already has it, ignoring
/// case; the item named `excluded_id`, which is being renamed, does not count.
pub fn ensure_unique_name(
    kind: &'static str,
    items: &Vec<NamedItem>,
    name: &str,
    excluded_id: Option<&str>,
) -> (r: LibraryResult<()>)
    ensures
        r is Err <==> name_taken(
            items@,
            name@,
            match excluded_id {
                Some(x) => Some(x@),
                None => None,
            },
        ),
        r matches Err(e) ==> (e matches LibraryError::DuplicateName { kind: k, name: n } && k
            == kind && n@ == name@),
{
    let ghost excluded = match excluded_id {
        Some(x) => Some(x@),
        None => None,
    };
    let folded = to_lowercase(name);
    let mut i: usize = 0;
    while i < items.len()
        invariant
            i <= items.len(),
            folded@ == lowercase(name@),
            excluded == (match excluded_id {
                Some(x) => Some(x@),
                None => None,
            }),
            forall|j: int|
                0 <= j < i ==> !(excluded != Some(items@[j].id@) && #[trigger] lowercase(
                    items@[j].name@,
                ) == lowercase(name@)),
        decreases items.len() - i,
    {
        let skipped = match excluded_id {
            Some(x) => items[i].id.as_str().to_owned() == x.to_owned(),
            None => false,
        };
        if !skipped {
            let existing = to_lowercase(items[i].name.as_str());
            if existing == folded {
                return Err(LibraryError::DuplicateName { kind, name: name.to_owned() });
            }
        }
        i = i + 1;
    }
    Ok(())
}

/// Reading a selection again from the identifiers it was read as gives the same list:
/// they are non-blank, already trimmed, and a set has one ascending listing.
pub proof fn lemma_normalized_ids_are_stable(ids: Seq<Seq<char>>, first: Seq<Seq<char>>, second: Seq<Seq<char>>)
    requires
        !has_blank_id(ids),
        strictly_ascending(first),
        first.to_set() == trimmed_texts(ids).to_set(),
        strictly_ascending(second),
        second.to_set() == trimmed_texts(first).to_set(),
    ensures
        !has_blank_id(first),
        second == first,
{
    assert forall|i: int| 0 <= i < first.len() implies #[trigger] trim(first[i]) == first[i] && first[i].len() > 0 by {
        assert(first.to_set().contains(first[i]));
        assert(trimmed_texts(ids).to_set().contains(first[i]));
        let j = choose|j: int| 0 <= j < trimmed_texts(ids).len() && trimmed_texts(ids)[j] == first[i];
        assert(first[i] == trim(ids[j]));
        lemma_trim_idempotent(ids[j]);
        assert(trim(ids[j]).len() > 0);
    }
    assert(trimmed_texts(first) =~= first);
    lemma_ascending_lists_of_one_set_are_equal(second, first);
}

} // verus!
