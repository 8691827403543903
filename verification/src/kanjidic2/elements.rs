//! The elements of a KANJIDIC2 character.

use vstd::prelude::*;

use crate::text::str_eq;

verus! {

/// The header of the dictionary.
#[derive(Debug)]
pub struct Header<'a> {
    pub file_version: &'a str,
    pub database_version: &'a str,
    pub date_of_creation: &'a str,
}

/// A kanji character.
#[derive(Debug)]
pub struct Character<'a> {
    pub literal: &'a str,
    pub code_point: Vec<CodePoint<'a>>,
    pub radical: Vec<Radical<'a>>,
    pub misc: Misc<'a>,
    pub dictionary_references: Vec<DictionaryReference<'a>>,
    pub query_codes: Vec<QueryCode<'a>>,
    pub readings: Vec<Reading<'a>>,
    pub meanings: Vec<Meaning<'a>>,
    pub nanori: Vec<&'a str>,
}

impl<'a> Character<'a> {
    /// Test if the query is the character itself, which gives its weight
    /// the exact-query boost.
    pub fn is_exact_query(&self, input: &str) -> (r: bool)
        ensures
            r == (self.literal@ == input@),
    {
        str_eq(self.literal, input)
    }
}

/// A code point of a character in some encoding.
#[derive(Debug)]
pub struct CodePoint<'a> {
    pub text: &'a str,
    pub ty: &'a str,
}

/// A radical classification of a character.
#[derive(Debug)]
pub struct Radical<'a> {
    pub text: &'a str,
    pub ty: &'a str,
}

/// A reference to a character in a dictionary.
#[derive(Debug)]
pub struct DictionaryReference<'a> {
    pub text: &'a str,
    pub ty: &'a str,
    pub volume: Option<&'a str>,
    pub page: Option<&'a str>,
}

/// A query code of a character.
#[derive(Debug)]
pub struct QueryCode<'a> {
    pub text: &'a str,
    pub ty: &'a str,
    pub skip_misclass: Option<&'a str>,
}

/// Miscellaneous information of a character.
#[derive(Debug)]
pub struct Misc<'a> {
    pub grade: Option<u8>,
    pub stroke_counts: Vec<u8>,
    pub variant: Option<Variant<'a>>,
    pub freq: Option<u32>,
    pub jlpt: Option<u8>,
    pub radical_names: Vec<&'a str>,
}

/// A variant of a character.
#[derive(Debug)]
pub struct Variant<'a> {
    pub text: &'a str,
    pub ty: &'a str,
}

/// A reading of a character.
#[derive(Debug)]
pub struct Reading<'a> {
    pub text: &'a str,
    pub ty: &'a str,
}

/// A meaning of a character.
#[derive(Debug)]
pub struct Meaning<'a> {
    pub text: &'a str,
    pub lang: Option<&'a str>,
}

/// What the miscellaneous information of a character holds.
#[verifier::ext_equal]
pub struct MiscView<'a> {
    pub grade: Option<u8>,
    pub stroke_counts: Seq<u8>,
    pub variant: Option<Variant<'a>>,
    pub freq: Option<u32>,
    pub jlpt: Option<u8>,
    pub radical_names: Seq<&'a str>,
}

impl<'a> View for Misc<'a> {
    type V = MiscView<'a>;

    open spec fn view(&self) -> MiscView<'a> {
        MiscView {
            grade: self.grade,
            stroke_counts: self.stroke_counts@,
            variant: self.variant,
            freq: self.freq,
            jlpt: self.jlpt,
            radical_names: self.radical_names@,
        }
    }
}

/// What a character holds.
#[verifier::ext_equal]
pub struct CharacterView<'a> {
    pub literal: &'a str,
    pub code_point: Seq<CodePoint<'a>>,
    pub radical: Seq<Radical<'a>>,
    pub misc: MiscView<'a>,
    pub dictionary_references: Seq<DictionaryReference<'a>>,
    pub query_codes: Seq<QueryCode<'a>>,
    pub readings: Seq<Reading<'a>>,
    pub meanings: Seq<Meaning<'a>>,
    pub nanori: Seq<&'a str>,
}

impl<'a> View for Character<'a> {
    type V = CharacterView<'a>;

    open spec fn view(&self) -> CharacterView<'a> {
        CharacterView {
            literal: self.literal,
            code_point: self.code_point@,
            radical: self.radical@,
            misc: self.misc@,
            dictionary_references: self.dictionary_references@,
            query_codes: self.query_codes@,
            readings: self.readings@,
            meanings: self.meanings@,
            nanori: self.nanori@,
        }
    }
}

} // verus!
