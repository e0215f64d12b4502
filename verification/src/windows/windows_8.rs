//! Windows 8 and 8.1: the whole input is the bare version number `8` or
//! `8.1`. No release label and no channel concept; every parse carries the
//! full edition set.

use vstd::prelude::*;
use vstd::string::StringExecFns;

use crate::errors::ParseError;
use crate::text;

verus! {

pub struct Windows8 {
    pub vendor: String,
    pub product: String,
    pub editions: Editions,
}

#[derive(Clone, Copy, Debug, PartialEq, Eq, Structural)]
pub enum Edition {
    Enterprise,
    EnterpriseN,
    N,
    ProWithMediaCenter,
    Professional,
    ProfessionalN,
    SL,
}

impl Edition {
    pub open spec fn name_spec(self) -> Seq<char> {
        match self {
            Edition::Enterprise => "Enterprise"@,
            Edition::EnterpriseN => "Enterprise N"@,
            Edition::N => "N"@,
            Edition::ProWithMediaCenter => "Pro with Media Center"@,
            Edition::Professional => "Professional"@,
            Edition::ProfessionalN => "Professional N"@,
            Edition::SL => "SL"@,
        }
    }

    pub fn to_string(&self) -> (r: String)
        ensures
            r@ == self.name_spec(),
    {
        match *self {
            Edition::Enterprise => String::from_str("Enterprise"),
            Edition::EnterpriseN => String::from_str("Enterprise N"),
            Edition::N => String::from_str("N"),
            Edition::ProWithMediaCenter => String::from_str("Pro with Media Center"),
            Edition::Professional => String::from_str("Professional"),
            Edition::ProfessionalN => String::from_str("Professional N"),
            Edition::SL => String::from_str("SL"),
        }
    }
}

pub struct Editions(pub Vec<Edition>);

pub open spec fn all_editions() -> Seq<Edition> {
    seq![
        Edition::Enterprise,
        Edition::EnterpriseN,
        Edition::N,
        Edition::ProWithMediaCenter,
        Edition::Professional,
        Edition::ProfessionalN,
        Edition::SL,
    ]
}

impl Editions {
    pub fn all() -> (r: Editions)
        ensures
            r.0@ == all_editions(),
    {
        let v = vec![
            Edition::Enterprise,
            Edition::EnterpriseN,
            Edition::N,
            Edition::ProWithMediaCenter,
            Edition::Professional,
            Edition::ProfessionalN,
            Edition::SL,
        ];
        proof {
            assert(v@ =~= all_editions());
        }
        Editions(v)
    }

    pub fn contains(&self, edition: Edition) -> (r: bool)
        ensures
            r == self.0@.contains(edition),
    {
        let mut i: usize = 0;
        while i < self.0.len()
            invariant
                i <= self.0@.len(),
                forall|k: int| 0 <= k < i ==> self.0@[k] != edition,
            decreases self.0@.len() - i,
        {
            if self.0[i] == edition {
                return true;
            }
            i = i + 1;
        }
        false
    }

    pub fn len(&self) -> (r: usize)
        ensures
            r == self.0@.len(),
    {
        self.0.len()
    }
}

/// The grammar: the entire raw input is `8` or `8.1`.
pub open spec fn accepts(s: Seq<char>) -> bool {
    s == "8"@ || s == "8.1"@
}

pub open spec fn product_of(s: Seq<char>) -> Seq<char> {
    if s == "8"@ {
        "Windows 8"@
    } else {
        "Windows 8.1"@
    }
}

pub open spec fn wf(w: Windows8) -> bool {
    &&& w.vendor@ == "Microsoft"@
    &&& w.editions.0@ == all_editions()
}

impl Windows8 {
    pub fn parse(value: &str) -> (r: Result<Windows8, ParseError>)
        ensures
            match r {
                Ok(w) => accepts(value@) && wf(w) && w.product@ == product_of(value@),
                Err(e) => !accepts(value@) && e == ParseError::NotThisFamily,
            },
    {
        let product = if text::str_eq(value, "8") {
            String::from_str("Windows 8")
        } else if text::str_eq(value, "8.1") {
            String::from_str("Windows 8.1")
        } else {
            return Err(ParseError::NotThisFamily);
        };
        Ok(
            Windows8 {
                vendor: String::from_str("Microsoft"),
                product,
                editions: Editions::all(),
            },
        )
    }

    /// The line rendered for one edition: vendor, product, edition.
    pub open spec fn line_spec(self, e: Edition) -> Seq<char> {
        self.vendor@ + " "@ + self.product@ + " "@ + e.name_spec()
    }

    /// One display line per edition.
    pub fn to_string(&self) -> (r: Vec<String>)
        ensures
            r.deep_view().len() == self.editions.0@.len(),
            forall|i: int|
                0 <= i < r.deep_view().len() ==> r.deep_view()[i] == self.line_spec(
                    self.editions.0@[i],
                ),
    {
        let mut out: Vec<String> = Vec::new();
        let mut i: usize = 0;
        while i < self.editions.0.len()
            invariant
                i <= self.editions.0@.len(),
                out.deep_view().len() == i,
                forall|k: int|
                    0 <= k < i ==> out.deep_view()[k] == self.line_spec(self.editions.0@[k]),
            decreases self.editions.0@.len() - i,
        {
            let e = self.editions.0[i];
            let mut line = String::from_str(self.vendor.as_str());
            line.append(" ");
            line.append(self.product.as_str());
            line.append(" ");
            let en = e.to_string();
            line.append(en.as_str());
            let ghost prev = out.deep_view();
            out.push(line);
            proof {
                assert(out.deep_view() =~= prev.push(line@));
            }
            i = i + 1;
        }
        out
    }
}

} // verus!
