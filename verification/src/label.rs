//! The two token views over an input string. A structured label is cut into
//! positional tokens by the reserved `-` delimiter; a free-text label keeps
//! the raw string for keyword and digit-run search.

use vstd::prelude::*;

use crate::errors::ParseError;
use crate::text;
use crate::util;

verus! {

/// The structured token view: the input, split on `-`. Only strings the
/// classifier accepts (`text::is_structured`) can be turned into one.
pub struct EndOfLifeLabel {
    pub raw: String,
    pub split: Vec<String>,
}

impl View for EndOfLifeLabel {
    type V = Seq<Seq<char>>;

    open spec fn view(&self) -> Seq<Seq<char>> {
        self.split.deep_view()
    }
}

impl EndOfLifeLabel {
    pub open spec fn raw_view(&self) -> Seq<char> {
        self.raw@
    }

    pub open spec fn wf(&self) -> bool {
        &&& text::is_structured(self.raw@)
        &&& self@ == text::split_dashes(self.raw@)
    }

    pub fn parse(value: &str) -> (r: Result<EndOfLifeLabel, ParseError>)
        ensures
            match r {
                Ok(l) => text::is_structured(value@) && l.wf() && l.raw_view() == value@,
                Err(e) => !text::is_structured(value@) && e == ParseError::NotStructured,
            },
    {
        if util::is_subdivided_by_dashes_only(value) {
            let split = text::tokenize(value);
            Ok(EndOfLifeLabel { raw: value.to_owned(), split })
        } else {
            Err(ParseError::NotStructured)
        }
    }

    pub fn get(&self, index: usize) -> (r: Option<&String>)
        ensures
            match r {
                Some(t) => index < self@.len() && t@ == self@[index as int],
                None => index >= self@.len(),
            },
    {
        if index < self.split.len() {
            Some(&self.split[index])
        } else {
            None
        }
    }

    pub fn len(&self) -> (r: usize)
        ensures
            r == self@.len(),
    {
        self.split.len()
    }
}

/// The free-text view: the raw string, searched by keyword and digit run.
pub struct GenericLabel {
    pub raw: String,
}

impl View for GenericLabel {
    type V = Seq<char>;

    open spec fn view(&self) -> Seq<char> {
        self.raw@
    }
}

impl GenericLabel {
    pub fn new(value: &str) -> (r: GenericLabel)
        ensures
            r@ == value@,
    {
        GenericLabel { raw: value.to_owned() }
    }

    pub fn as_str(&self) -> (r: &str)
        ensures
            r@ == self@,
    {
        self.raw.as_str()
    }
}

} // verus!
