//! A book as a sequence of chapters of marked-up text.

use vstd::prelude::*;
use vstd::string::StringExecFns;
use crate::input::{
    extract_plain_text, loaded_document, spec_extract_plain_text, LoadError, LoadedDocument,
};
use crate::spans::string_views;
use crate::token::token_views;
use crate::tokenizer::spec_tokenize;

verus! {

/// The readable text of the chapters, in order: empty chapters are left
/// out, and an empty line stands between one chapter and the next.
pub open spec fn chapters_text(chapters: Seq<Seq<char>>) -> Seq<char>
    decreases chapters.len(),
{
    if chapters.len() == 0 {
        Seq::empty()
    } else {
        let before = chapters_text(chapters.drop_last());
        let chapter = chapters.last();
        if chapter.len() == 0 {
            before
        } else if before.len() > 0 {
            before + "\n\n"@ + spec_extract_plain_text(chapter)
        } else {
            spec_extract_plain_text(chapter)
        }
    }
}

/// The document of a book that was read from `path` and holds `chapters`.
/// A book without chapters, and one without readable text, is an
/// `EpubParse` error.
pub fn load(path: &str, chapters: &Vec<String>) -> (result: Result<LoadedDocument, LoadError>)
    ensures
        chapters@.len() == 0 ==> (result matches Err(LoadError::EpubParse(msg)) && msg@
            == "No chapters found in EPUB"@),
        chapters@.len() > 0 && chapters_text(string_views(chapters@)).len() == 0 ==> (
        result matches Err(LoadError::EpubParse(msg)) && msg@
            == "No extractable text content found in EPUB"@),
        chapters@.len() > 0 && chapters_text(string_views(chapters@)).len() > 0 ==> (
        result matches Ok(document) && token_views(document.tokens@) == spec_tokenize(
            chapters_text(string_views(chapters@)),
        ) && document.source@ == "epub:"@ + path@),
{
    if chapters.len() == 0 {
        return Err(LoadError::EpubParse(String::from_str("No chapters found in EPUB")));
    }
    let mut content = String::new();
    let mut empty: bool = true;
    let mut i: usize = 0;
    let ghost views = string_views(chapters@);
    assert(views.subrange(0, 0) =~= Seq::<Seq<char>>::empty());
    while i < chapters.len()
        invariant
            i <= chapters@.len(),
            views == string_views(chapters@),
            content@ == chapters_text(views.subrange(0, i as int)),
            empty == (content@.len() == 0),
        decreases chapters@.len() - i,
    {
        proof {
            assert(views.subrange(0, i + 1).drop_last() =~= views.subrange(0, i as int));
            assert(views.subrange(0, i + 1).last() == chapters@[i as int]@);
        }
        if chapters[i].as_str().unicode_len() > 0 {
            if !empty {
                content.append("\n\n");
            } else {
                content = String::new();
            }
            let plain = extract_plain_text(chapters[i].as_str());
            content.append(plain.as_str());
            proof {
                reveal_strlit("\n\n");
                assert(Seq::<char>::empty() + plain@ =~= plain@);
            }
            empty = empty && plain.as_str().unicode_len() == 0;
        }
        i += 1;
    }
    assert(views.subrange(0, i as int) =~= views);
    if empty {
        return Err(
            LoadError::EpubParse(String::from_str("No extractable text content found in EPUB")),
        );
    }
    let source = String::from_str("epub:").concat(path);
    Ok(loaded_document(content.as_str(), source))
}

} // verus!
