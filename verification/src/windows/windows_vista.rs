//! Windows Vista: structured labels `6-<release>`, where the release is a
//! service pack. No channel concept; every parse carries the full edition
//! set.

use vstd::prelude::*;
use vstd::string::StringExecFns;

use crate::errors::ParseError;
use crate::text;

verus! {

pub struct WindowsVista {
    pub vendor: String,
    pub product: String,
    pub release: Release,
    pub editions: Editions,
}

#[derive(Clone, Copy, Debug, PartialEq, Eq, Structural)]
pub enum Release {
    SP1,
    SP2,
}

impl Release {
    pub open spec fn name_spec(self) -> Seq<char> {
        match self {
            Release::SP1 => "SP1"@,
            Release::SP2 => "SP2"@,
        }
    }

    /// Which release a token denotes, once upper-cased.
    pub open spec fn from_token_spec(t: Seq<char>) -> Option<Release> {
        let u = text::upper_seq(t);
        if u == "SP1"@ {
            Some(Release::SP1)
        } else if u == "SP2"@ {
            Some(Release::SP2)
        } else {
            None
        }
    }

    pub fn try_from_token(t: &str) -> (r: Option<Release>)
        ensures
            r == Release::from_token_spec(t@),
    {
        let u = text::to_upper(t);
        if text::str_eq(u.as_str(), "SP1") {
            Some(Release::SP1)
        } else if text::str_eq(u.as_str(), "SP2") {
            Some(Release::SP2)
        } else {
            None
        }
    }

    pub fn to_string(&self) -> (r: String)
        ensures
            r@ == self.name_spec(),
    {
        match *self {
            Release::SP1 => String::from_str("SP1"),
            Release::SP2 => String::from_str("SP2"),
        }
    }
}

#[derive(Clone, Copy, Debug, PartialEq, Eq, Structural)]
pub enum Edition {
    Business,
    BusinessN,
    BusinessN64bit,
    Enterprise,
    Enterprise64bit,
    EnterpriseX64,
    HomeBasic,
    HomeBasic64bit,
    HomeBasicN,
    HomeBasicN64bit,
    HomePremium,
    HomePremium64bit,
    Starter,
    Ultimate,
    Ultimate64bit,
}

impl Edition {
    pub open spec fn name_spec(self) -> Seq<char> {
        match self {
            Edition::Business => "Business"@,
            Edition::BusinessN => "Business N"@,
            Edition::BusinessN64bit => "Business N 64-bit"@,
            Edition::Enterprise => "Enterprise"@,
            Edition::Enterprise64bit => "Enterprise 64-bit"@,
            Edition::EnterpriseX64 => "Enterprise X64"@,
            Edition::HomeBasic => "Home Basic"@,
            Edition::HomeBasic64bit => "Home Basic 64-bit"@,
            Edition::HomeBasicN => "Home Basic N"@,
            Edition::HomeBasicN64bit => "Home Basic N 64-bit"@,
            Edition::HomePremium => "Home Premium"@,
            Edition::HomePremium64bit => "Home Premium 64-bit"@,
            Edition::Starter => "Starter"@,
            Edition::Ultimate => "Ultimate"@,
            Edition::Ultimate64bit => "Ultimate 64-bit"@,
        }
    }

    pub fn to_string(&self) -> (r: String)
        ensures
            r@ == self.name_spec(),
    {
        match *self {
            Edition::Business => String::from_str("Business"),
            Edition::BusinessN => String::from_str("Business N"),
            Edition::BusinessN64bit => String::from_str("Business N 64-bit"),
            Edition::Enterprise => String::from_str("Enterprise"),
            Edition::Enterprise64bit => String::from_str("Enterprise 64-bit"),
            Edition::EnterpriseX64 => String::from_str("Enterprise X64"),
            Edition::HomeBasic => String::from_str("Home Basic"),
            Edition::HomeBasic64bit => String::from_str("Home Basic 64-bit"),
            Edition::HomeBasicN => String::from_str("Home Basic N"),
            Edition::HomeBasicN64bit => String::from_str("Home Basic N 64-bit"),
            Edition::HomePremium => String::from_str("Home Premium"),
            Edition::HomePremium64bit => String::from_str("Home Premium 64-bit"),
            Edition::Starter => String::from_str("Starter"),
            Edition::Ultimate => String::from_str("Ultimate"),
            Edition::Ultimate64bit => String::from_str("Ultimate 64-bit"),
        }
    }
}

pub struct Editions(pub Vec<Edition>);

pub open spec fn all_editions() -> Seq<Edition> {
    seq![
        Edition::Business,
        Edition::BusinessN,
        Edition::BusinessN64bit,
        Edition::Enterprise,
        Edition::Enterprise64bit,
        Edition::EnterpriseX64,
        Edition::HomeBasic,
        Edition::HomeBasic64bit,
        Edition::HomeBasicN,
        Edition::HomeBasicN64bit,
        Edition::HomePremium,
        Edition::HomePremium64bit,
        Edition::Starter,
        Edition::Ultimate,
        Edition::Ultimate64bit,
    ]
}

impl Editions {
    pub fn all() -> (r: Editions)
        ensures
            r.0@ == all_editions(),
    {
        let v = vec![
            Edition::Business,
            Edition::BusinessN,
            Edition::BusinessN64bit,
            Edition::Enterprise,
            Edition::Enterprise64bit,
            Edition::EnterpriseX64,
            Edition::HomeBasic,
            Edition::HomeBasic64bit,
            Edition::HomeBasicN,
            Edition::HomeBasicN64bit,
            Edition::HomePremium,
            Edition::HomePremium64bit,
            Edition::Starter,
            Edition::Ultimate,
            Edition::Ultimate64bit,
        ];
        proof {
            assert(v@ =~= all_editions());
        }
        Editions(v)
    }

    pub fn contains(&self, edition: Edition) -> (r: bool)
        ensures
            r == self.0@.contains(edition),
    {
        let mut i: usize = 0;
        while i < self.0.len()
            invariant
                i <= self.0@.len(),
                forall|k: int| 0 <= k < i ==> self.0@[k] != edition,
            decreases self.0@.len() - i,
        {
            if self.0[i] == edition {
                return true;
            }
            i = i + 1;
        }
        false
    }

    pub fn len(&self) -> (r: usize)
        ensures
            r == self.0@.len(),
    {
        self.0.len()
    }
}

/// The structured grammar: discriminator `7`, then exactly one release token
/// from the recognized vocabulary.
pub open spec fn accepts(toks: Seq<Seq<char>>) -> bool {
    &&& toks.len() == 2
    &&& toks[0] == "6"@
    &&& Release::from_token_spec(toks[1]) is Some
}

pub open spec fn reject_reason(toks: Seq<Seq<char>>) -> ParseError {
    if toks[0] != "6"@ {
        ParseError::NotThisFamily
    } else if toks.len() != 2 {
        ParseError::MalformedLabel
    } else {
        ParseError::UnrecognizedField
    }
}

/// Every field of a well-formed record but the release is fixed.
pub open spec fn wf(w: WindowsVista) -> bool {
    &&& w.vendor@ == "Microsoft"@
    &&& w.product@ == "Windows Vista"@
    &&& w.editions.0@ == all_editions()
}

impl WindowsVista {
    pub fn parse(tokens: &Vec<String>) -> (r: Result<WindowsVista, ParseError>)
        requires
            tokens@.len() >= 1,
        ensures
            match r {
                Ok(w) => accepts(tokens.deep_view()) && wf(w) && Release::from_token_spec(
                    tokens.deep_view()[1],
                ) == Some(w.release),
                Err(e) => !accepts(tokens.deep_view()) && e == reject_reason(tokens.deep_view()),
            },
    {
        proof {
            assert(tokens.deep_view()[0] == tokens@[0]@);
        }
        if !text::str_eq(tokens[0].as_str(), "6") {
            return Err(ParseError::NotThisFamily);
        }
        if tokens.len() != 2 {
            return Err(ParseError::MalformedLabel);
        }
        proof {
            assert(tokens.deep_view()[1] == tokens@[1]@);
        }
        match Release::try_from_token(tokens[1].as_str()) {
            Some(release) => Ok(
                WindowsVista {
                    vendor: String::from_str("Microsoft"),
                    product: String::from_str("Windows Vista"),
                    release,
                    editions: Editions::all(),
                },
            ),
            None => Err(ParseError::UnrecognizedField),
        }
    }

    /// The line rendered for one edition: vendor, product, edition, release.
    pub open spec fn line_spec(self, e: Edition) -> Seq<char> {
        self.vendor@ + " "@ + self.product@ + " "@ + e.name_spec() + " "@
            + self.release.name_spec()
    }

    /// One display line per edition.
    pub fn to_string(&self) -> (r: Vec<String>)
        ensures
            r.deep_view().len() == self.editions.0@.len(),
            forall|i: int|
                0 <= i < r.deep_view().len() ==> r.deep_view()[i] == self.line_spec(
                    self.editions.0@[i],
                ),
    {
        let mut out: Vec<String> = Vec::new();
        let mut i: usize = 0;
        while i < self.editions.0.len()
            invariant
                i <= self.editions.0@.len(),
                out.deep_view().len() == i,
                forall|k: int|
                    0 <= k < i ==> out.deep_view()[k] == self.line_spec(self.editions.0@[k]),
            decreases self.editions.0@.len() - i,
        {
            let e = self.editions.0[i];
            let mut line = String::from_str(self.vendor.as_str());
            line.append(" ");
            line.append(self.product.as_str());
            line.append(" ");
            let en = e.to_string();
            line.append(en.as_str());
            line.append(" ");
            let rn = self.release.to_string();
            line.append(rn.as_str());
            let ghost prev = out.deep_view();
            out.push(line);
            proof {
                assert(out.deep_view() =~= prev.push(line@));
            }
            i = i + 1;
        }
        out
    }
}

} // verus!
