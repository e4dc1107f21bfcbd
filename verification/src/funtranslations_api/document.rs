//! What the client reads from a translation document, and the translation
//! that such a document yields.

use vstd::prelude::*;
use crate::funtranslations_api::client::{
    FunTranslationsApiClientError,
    Translation,
    TranslationView,
};
use crate::json::{get_member, json_of, read_text, Json};
use crate::text::text_view;

verus! {

/// What the client reads from a translation document. A field is `None`
/// where the document lacks it or holds a value of another type.
#[derive(Debug)]
pub struct TranslationDocument {
    pub total: Option<u64>,
    pub translated: Option<String>,
    pub text: Option<String>,
    pub translation: Option<String>,
}

/// The mathematical value of a [`TranslationDocument`].
#[verifier::ext_equal]
pub struct TranslationDocumentView {
    pub total: Option<u64>,
    pub translated: Option<Seq<char>>,
    pub text: Option<Seq<char>>,
    pub translation: Option<Seq<char>>,
}

impl View for TranslationDocument {
    type V = TranslationDocumentView;

    open spec fn view(&self) -> TranslationDocumentView {
        TranslationDocumentView {
            total: self.total,
            translated: text_view(self.translated),
            text: text_view(self.text),
            translation: text_view(self.translation),
        }
    }
}

/// The translation document that a JSON value stands for: its
/// `success.total` and the `translated`, `text` and `translation` of its
/// `contents`, each where it is of the type that is looked for.
pub open spec fn translation_document(value: Json) -> TranslationDocumentView {
    let contents = value.member("contents"@);
    TranslationDocumentView {
        total: value.member("success"@).member("total"@).unsigned(),
        translated: contents.text_at("translated"@),
        text: contents.text_at("text"@),
        translation: contents.text_at("translation"@),
    }
}

impl TranslationDocument {
    /// Reads the fields of a translation document.
    pub fn read(value: &serde_json::Value) -> (r: TranslationDocument)
        ensures
            r@ == translation_document(json_of(*value)),
    {
        let contents = get_member(value, "contents");
        TranslationDocument {
            total: get_member(get_member(value, "success"), "total").as_u64(),
            translated: read_text(contents, "translated"),
            text: read_text(contents, "text"),
            translation: read_text(contents, "translation"),
        }
    }
}

/// The translation that a document yields: none unless the upstream counts
/// at least one translation and gives all three texts.
pub open spec fn translation_of(doc: TranslationDocumentView) -> Option<TranslationView> {
    match (doc.total, doc.translated, doc.text, doc.translation) {
        (Some(total), Some(translated), Some(text), Some(translation)) => if total > 0 {
            Some(TranslationView { dialect: translation, original: text, translated })
        } else {
            None
        },
        _ => None,
    }
}

impl Translation {
    /// The translation that a document yields. Fails with `InternalError`
    /// where the count of translations is absent or zero, or one of the
    /// three texts cannot be had.
    pub fn from_document(doc: TranslationDocument) -> (r: Result<
        Translation,
        FunTranslationsApiClientError,
    >)
        ensures
            match translation_of(doc@) {
                Some(translation) => r is Ok && r->Ok_0@ == translation,
                None => r is Err && r->Err_0 == FunTranslationsApiClientError::InternalError,
            },
    {
        match doc.total {
            Some(total) => {
                if total > 0 {
                    match (doc.translated, doc.text, doc.translation) {
                        (Some(translated), Some(text), Some(translation)) => Ok(
                            Translation { dialect: translation, original: text, translated },
                        ),
                        _ => Err(FunTranslationsApiClientError::InternalError),
                    }
                } else {
                    Err(FunTranslationsApiClientError::InternalError)
                }
            },
            None => Err(FunTranslationsApiClientError::InternalError),
        }
    }
}

/// A document whose count of translations is zero yields no translation,
/// whatever else it holds.
pub proof fn lemma_zero_total_yields_nothing(doc: TranslationDocumentView)
    requires
        doc.total == Some(0u64),
    ensures
        translation_of(doc) is None,
{
}

/// A document that lacks the count or one of the three texts yields no
/// translation.
pub proof fn lemma_incomplete_document_yields_nothing(doc: TranslationDocumentView)
    requires
        doc.total is None || doc.translated is None || doc.text is None || doc.translation is None,
    ensures
        translation_of(doc) is None,
{
}

/// A document that counts at least one translation and gives all three
/// texts yields a translation: the dialect is the document's `translation`,
/// the input its `text`, the output its `translated`.
pub proof fn lemma_complete_document_yields_translation(doc: TranslationDocumentView)
    requires
        doc.total matches Some(total) && total > 0,
        doc.translated is Some,
        doc.text is Some,
        doc.translation is Some,
    ensures
        translation_of(doc) == Some(
            TranslationView {
                dialect: doc.translation->Some_0,
                original: doc.text->Some_0,
                translated: doc.translated->Some_0,
            },
        ),
{
}

} // verus!
