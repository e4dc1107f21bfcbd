//! What the client reads from a species document, and the species info that
//! such a document yields.

use vstd::prelude::*;
use crate::json::{get_member, json_of, jsons_of, read_text, Json};
use crate::poke_api::client::{PokeApiClientError, PokemonInfo, PokemonInfoView};
use crate::text::{fold_newlines, folded, lemma_folded, same_text, text_view};

verus! {

/// One entry of the list of descriptions in a species document: the name of
/// its language and its text, each where the document holds it as a string.
#[derive(Debug)]
pub struct FlavorTextEntry {
    pub language: Option<String>,
    pub flavor_text: Option<String>,
}

/// The mathematical value of a [`FlavorTextEntry`].
#[verifier::ext_equal]
pub struct FlavorTextEntryView {
    pub language: Option<Seq<char>>,
    pub flavor_text: Option<Seq<char>>,
}

impl View for FlavorTextEntry {
    type V = FlavorTextEntryView;

    open spec fn view(&self) -> FlavorTextEntryView {
        FlavorTextEntryView {
            language: text_view(self.language),
            flavor_text: text_view(self.flavor_text),
        }
    }
}

/// The values of a list of entries, in order.
pub open spec fn entries_view(entries: Seq<FlavorTextEntry>) -> Seq<FlavorTextEntryView> {
    Seq::new(entries.len(), |i: int| entries[i]@)
}

/// What the client reads from a species document. A field is `None` where
/// the document lacks it or holds a value of another type.
#[derive(Debug)]
pub struct SpeciesDocument {
    pub name: Option<String>,
    pub flavor_text_entries: Option<Vec<FlavorTextEntry>>,
    pub habitat: Option<String>,
    pub is_legendary: Option<bool>,
}

/// The mathematical value of a [`SpeciesDocument`].
#[verifier::ext_equal]
pub struct SpeciesDocumentView {
    pub name: Option<Seq<char>>,
    pub flavor_text_entries: Option<Seq<FlavorTextEntryView>>,
    pub habitat: Option<Seq<char>>,
    pub is_legendary: Option<bool>,
}

impl View for SpeciesDocument {
    type V = SpeciesDocumentView;

    open spec fn view(&self) -> SpeciesDocumentView {
        SpeciesDocumentView {
            name: text_view(self.name),
            flavor_text_entries: match self.flavor_text_entries {
                Some(entries) => Some(entries_view(entries@)),
                None => None,
            },
            habitat: text_view(self.habitat),
            is_legendary: self.is_legendary,
        }
    }
}

/// The entry that a JSON value stands for: its `language.name` and its
/// `flavor_text`, each where it is a string.
pub open spec fn flavor_text_entry(value: Json) -> FlavorTextEntryView {
    FlavorTextEntryView {
        language: value.member("language"@).text_at("name"@),
        flavor_text: value.text_at("flavor_text"@),
    }
}

/// The species document that a JSON value stands for: its `name`, the
/// entries of its `flavor_text_entries`, its `habitat.name` and its
/// `is_legendary`, each where it is of the type that is looked for.
pub open spec fn species_document(value: Json) -> SpeciesDocumentView {
    SpeciesDocumentView {
        name: value.text_at("name"@),
        flavor_text_entries: match value.member("flavor_text_entries"@).elements() {
            Some(items) => Some(Seq::new(items.len(), |i: int| flavor_text_entry(items[i]))),
            None => None,
        },
        habitat: value.member("habitat"@).text_at("name"@),
        is_legendary: value.member("is_legendary"@).truth(),
    }
}

impl FlavorTextEntry {
    /// Reads one entry of the list of descriptions.
    pub fn read(value: &serde_json::Value) -> (r: FlavorTextEntry)
        ensures
            r@ == flavor_text_entry(json_of(*value)),
    {
        FlavorTextEntry {
            language: read_text(get_member(value, "language"), "name"),
            flavor_text: read_text(value, "flavor_text"),
        }
    }
}

impl SpeciesDocument {
    /// Reads the fields of a species document.
    pub fn read(value: &serde_json::Value) -> (r: SpeciesDocument)
        ensures
            r@ == species_document(json_of(*value)),
    {
        let flavor_text_entries = match get_member(value, "flavor_text_entries").as_array() {
            Some(items) => {
                let mut entries: Vec<FlavorTextEntry> = Vec::new();
                let mut i: usize = 0;
                while i < items.len()
                    invariant
                        i <= items.len(),
                        entries.len() == i,
                        forall|j: int|
                            0 <= j < i ==> entries[j]@ == flavor_text_entry(json_of(items[j])),
                    decreases items.len() - i,
                {
                    entries.push(FlavorTextEntry::read(&items[i]));
                    i += 1;
                }
                assert(entries_view(entries@) =~= Seq::new(
                    jsons_of(items@).len(),
                    |i: int| flavor_text_entry(jsons_of(items@)[i]),
                ));
                Some(entries)
            },
            None => None,
        };
        SpeciesDocument {
            name: read_text(value, "name"),
            flavor_text_entries,
            habitat: read_text(get_member(value, "habitat"), "name"),
            is_legendary: get_member(value, "is_legendary").as_bool(),
        }
    }
}

/// Whether an entry is written in English.
pub open spec fn is_english(entry: FlavorTextEntryView) -> bool {
    entry.language == Some("en"@)
}

/// Whether `i` is the place of the first English entry of `entries`.
pub open spec fn is_first_english(entries: Seq<FlavorTextEntryView>, i: int) -> bool {
    &&& 0 <= i < entries.len()
    &&& is_english(entries[i])
    &&& forall|j: int| 0 <= j < i ==> !is_english(#[trigger] entries[j])
}

/// The place of the first English entry of `entries`, if there is one.
pub open spec fn first_english(entries: Seq<FlavorTextEntryView>) -> Option<int>
    decreases entries.len(),
{
    if entries.len() == 0 {
        None
    } else if is_english(entries[0]) {
        Some(0)
    } else {
        match first_english(entries.drop_first()) {
            Some(i) => Some(i + 1),
            None => None,
        }
    }
}

/// `is_english` as a value.
pub open spec fn english() -> spec_fn(FlavorTextEntryView) -> bool {
    |entry: FlavorTextEntryView| is_english(entry)
}

/// The English entries of a list, in their order.
pub open spec fn english_entries(entries: Seq<FlavorTextEntryView>) -> Seq<FlavorTextEntryView> {
    entries.filter(english())
}

/// The text of an entry with every line break replaced by one space.
pub open spec fn folded_text(entry: FlavorTextEntryView) -> Option<Seq<char>> {
    match entry.flavor_text {
        Some(text) => Some(folded(text)),
        None => None,
    }
}

/// The description that a species document yields: the text of its first
/// English entry, with every line break replaced by one space.
pub open spec fn description_of(doc: SpeciesDocumentView) -> Option<Seq<char>> {
    match doc.flavor_text_entries {
        Some(entries) => match first_english(entries) {
            Some(i) => folded_text(entries[i]),
            None => None,
        },
        None => None,
    }
}

/// The species info that a document yields, or `None` where one of the four
/// fields cannot be had.
pub open spec fn species_info(doc: SpeciesDocumentView) -> Option<PokemonInfoView> {
    match (doc.name, description_of(doc), doc.habitat, doc.is_legendary) {
        (Some(name), Some(description), Some(habitat), Some(is_legendary)) => Some(
            PokemonInfoView { name, description, habitat, is_legendary },
        ),
        _ => None,
    }
}

/// `first_english` finds the least place that holds an English entry, and
/// finds nothing only where no entry is English.
pub proof fn lemma_first_english(entries: Seq<FlavorTextEntryView>)
    ensures
        match first_english(entries) {
            Some(i) => is_first_english(entries, i),
            None => forall|j: int| 0 <= j < entries.len() ==> !is_english(#[trigger] entries[j]),
        },
    decreases entries.len(),
{
    if entries.len() > 0 && !is_english(entries[0]) {
        let rest = entries.drop_first();
        lemma_first_english(rest);
        assert forall|j: int| 0 < j < entries.len() implies #[trigger] entries[j] == rest[j - 1] by {}
    }
}

/// The place that `is_first_english` accepts is the one that `first_english`
/// finds.
pub proof fn lemma_first_english_is_unique(entries: Seq<FlavorTextEntryView>, i: int)
    requires
        is_first_english(entries, i),
    ensures
        first_english(entries) == Some(i),
{
    lemma_first_english(entries);
}

/// The first English entry of a list is the first of its English entries.
pub proof fn lemma_first_english_entry_leads(entries: Seq<FlavorTextEntryView>)
    ensures
        match first_english(entries) {
            Some(i) => 0 <= i < entries.len() && english_entries(entries).len() > 0
                && english_entries(entries)[0] == entries[i],
            None => english_entries(entries).len() == 0,
        },
    decreases entries.len(),
{
    reveal_with_fuel(Seq::filter, 2);
    if entries.len() > 0 {
        let head = seq![entries[0]];
        let rest = entries.drop_first();
        assert(entries =~= head + rest);
        Seq::filter_distributes_over_add(head, rest, english());
        assert(head.drop_last() =~= Seq::<FlavorTextEntryView>::empty());
        if is_english(entries[0]) {
            assert(head.filter(english()) =~= head);
        } else {
            assert(head.filter(english()) =~= Seq::<FlavorTextEntryView>::empty());
            assert(english_entries(entries) =~= english_entries(rest));
            lemma_first_english_entry_leads(rest);
        }
    }
}

impl SpeciesDocument {
    /// The place of the first entry whose language is `en`.
    pub fn first_english_entry(entries: &Vec<FlavorTextEntry>) -> (r: Option<usize>)
        ensures
            match r {
                Some(i) => i < entries.len() && first_english(entries_view(entries@)) == Some(
                    i as int,
                ),
                None => first_english(entries_view(entries@)) is None,
            },
    {
        let ghost views = entries_view(entries@);
        let mut i: usize = 0;
        while i < entries.len()
            invariant
                i <= entries.len(),
                views == entries_view(entries@),
                forall|j: int| 0 <= j < i ==> !is_english(#[trigger] views[j]),
            decreases entries.len() - i,
        {
            let english = match &entries[i].language {
                Some(language) => same_text(language.as_str(), "en"),
                None => false,
            };
            if english {
                proof {
                    lemma_first_english_is_unique(views, i as int);
                }
                return Some(i);
            }
            i += 1;
        }
        proof {
            lemma_first_english(views);
        }
        None
    }

    /// The description that the document yields. It holds no line break.
    pub fn description(&self) -> (r: Option<String>)
        ensures
            text_view(r) == description_of(self@),
            r matches Some(text) ==> !text@.contains('\n'),
    {
        proof {
            lemma_description_has_no_line_break(self@);
        }
        match &self.flavor_text_entries {
            Some(entries) => match SpeciesDocument::first_english_entry(entries) {
                Some(i) => match &entries[i].flavor_text {
                    Some(text) => Some(fold_newlines(text.as_str())),
                    None => None,
                },
                None => None,
            },
            None => None,
        }
    }
}

impl PokemonInfo {
    /// The species info that a document yields. Fails with `InternalError`
    /// where the name, the description, the habitat or the legendary flag
    /// cannot be had. The description of the info holds no line break.
    pub fn from_document(doc: SpeciesDocument) -> (r: Result<PokemonInfo, PokeApiClientError>)
        ensures
            match species_info(doc@) {
                Some(info) => r is Ok && r->Ok_0@ == info,
                None => r is Err && r->Err_0 == PokeApiClientError::InternalError,
            },
            r matches Ok(info) ==> !info@.description.contains('\n'),
    {
        let description = doc.description();
        match (doc.name, description, doc.habitat, doc.is_legendary) {
            (Some(name), Some(description), Some(habitat), Some(is_legendary)) => Ok(
                PokemonInfo { name, description, habitat, is_legendary },
            ),
            _ => Err(PokeApiClientError::InternalError),
        }
    }
}

/// Where a species document holds an English entry, its description is the
/// text of the first such entry with every line break replaced by one space,
/// wherever the entries of other languages stand; and the species info that
/// the document yields, if any, carries that description.
pub proof fn lemma_description_is_first_english_text(doc: SpeciesDocumentView, j: int)
    requires
        doc.flavor_text_entries is Some,
        0 <= j < doc.flavor_text_entries->Some_0.len(),
        is_english(doc.flavor_text_entries->Some_0[j]),
    ensures
        ({
            let entries = doc.flavor_text_entries->Some_0;
            &&& first_english(entries) matches Some(i)
            &&& is_first_english(entries, i)
            &&& i <= j
            &&& description_of(doc) == folded_text(entries[i])
            &&& species_info(doc) matches Some(info) ==> Some(info.description) == folded_text(
                entries[i],
            )
        }),
{
    lemma_first_english(doc.flavor_text_entries->Some_0);
}

/// The description depends on the English entries alone: two documents whose
/// English entries are the same, in the same order, yield the same
/// description, whatever entries of other languages stand among them.
pub proof fn lemma_description_ignores_other_languages(
    a: SpeciesDocumentView,
    b: SpeciesDocumentView,
)
    requires
        a.flavor_text_entries is Some,
        b.flavor_text_entries is Some,
        english_entries(a.flavor_text_entries->Some_0) == english_entries(
            b.flavor_text_entries->Some_0,
        ),
    ensures
        description_of(a) == description_of(b),
{
    lemma_first_english_entry_leads(a.flavor_text_entries->Some_0);
    lemma_first_english_entry_leads(b.flavor_text_entries->Some_0);
}

/// The description of a species never holds a line break.
pub proof fn lemma_description_has_no_line_break(doc: SpeciesDocumentView)
    ensures
        description_of(doc) matches Some(text) ==> !text.contains('\n'),
        species_info(doc) matches Some(info) ==> !info.description.contains('\n'),
{
    if let Some(entries) = doc.flavor_text_entries {
        if let Some(i) = first_english(entries) {
            if let Some(text) = entries[i].flavor_text {
                lemma_folded(text);
            }
        }
    }
}

/// A document that lacks the name, an English entry with a text, the habitat
/// or the legendary flag yields no species info.
pub proof fn lemma_incomplete_document_yields_nothing(doc: SpeciesDocumentView)
    requires
        ({
            ||| doc.name is None
            ||| doc.habitat is None
            ||| doc.is_legendary is None
            ||| doc.flavor_text_entries is None
            ||| forall|j: int|
                0 <= j < doc.flavor_text_entries->Some_0.len() ==> !is_english(
                    #[trigger] doc.flavor_text_entries->Some_0[j],
                )
            ||| exists|i: int|
                is_first_english(doc.flavor_text_entries->Some_0, i)
                    && doc.flavor_text_entries->Some_0[i].flavor_text is None
        }),
    ensures
        species_info(doc) is None,
{
    if let Some(entries) = doc.flavor_text_entries {
        lemma_first_english(entries);
        if exists|i: int| is_first_english(entries, i) && entries[i].flavor_text is None {
            let i = choose|i: int| is_first_english(entries, i) && entries[i].flavor_text is None;
            lemma_first_english_is_unique(entries, i);
        }
    }
}

/// A document that holds the name, the habitat, the legendary flag and an
/// English entry whose first one has a text yields a species info, with the
/// first three as they are.
pub proof fn lemma_complete_document_yields_info(doc: SpeciesDocumentView, i: int)
    requires
        doc.name is Some,
        doc.habitat is Some,
        doc.is_legendary is Some,
        doc.flavor_text_entries is Some,
        is_first_english(doc.flavor_text_entries->Some_0, i),
        doc.flavor_text_entries->Some_0[i].flavor_text is Some,
    ensures
        species_info(doc) == Some(
            PokemonInfoView {
                name: doc.name->Some_0,
                description: folded(doc.flavor_text_entries->Some_0[i].flavor_text->Some_0),
                habitat: doc.habitat->Some_0,
                is_legendary: doc.is_legendary->Some_0,
            },
        ),
{
    lemma_first_english_is_unique(doc.flavor_text_entries->Some_0, i);
}

} // verus!
