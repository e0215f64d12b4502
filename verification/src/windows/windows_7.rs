//! Windows 7: structured labels `7-<release>`, where the release is a
//! service pack or an extended-security-update year. No channel concept;
//! every parse carries the full edition set.

use vstd::prelude::*;
use vstd::string::StringExecFns;

use crate::errors::ParseError;
use crate::text;

verus! {

pub struct Windows7 {
    pub vendor: String,
    pub product: String,
    pub release: Release,
    pub editions: Editions,
}

#[derive(Clone, Copy, Debug, PartialEq, Eq, Structural)]
pub enum Release {
    SP1,
    ESU1,
    ESU2,
    ESU3,
}

impl Release {
    pub open spec fn name_spec(self) -> Seq<char> {
        match self {
            Release::SP1 => "SP1"@,
            Release::ESU1 => "ESU1"@,
            Release::ESU2 => "ESU2"@,
            Release::ESU3 => "ESU3"@,
        }
    }

    /// Which release a token denotes, once upper-cased.
    pub open spec fn from_token_spec(t: Seq<char>) -> Option<Release> {
        let u = text::upper_seq(t);
        if u == "SP1"@ {
            Some(Release::SP1)
        } else if u == "ESU1"@ {
            Some(Release::ESU1)
        } else if u == "ESU2"@ {
            Some(Release::ESU2)
        } else if u == "ESU3"@ {
            Some(Release::ESU3)
        } else {
            None
        }
    }

    pub fn try_from_token(t: &str) -> (r: Option<Release>)
        ensures
            r == Release::from_token_spec(t@),
    {
        let u = text::to_upper(t);
        if text::str_eq(u.as_str(), "SP1") {
            Some(Release::SP1)
        } else if text::str_eq(u.as_str(), "ESU1") {
            Some(Release::ESU1)
        } else if text::str_eq(u.as_str(), "ESU2") {
            Some(Release::ESU2)
        } else if text::str_eq(u.as_str(), "ESU3") {
            Some(Release::ESU3)
        } else {
            None
        }
    }

    pub fn to_string(&self) -> (r: String)
        ensures
            r@ == self.name_spec(),
    {
        match *self {
            Release::SP1 => String::from_str("SP1"),
            Release::ESU1 => String::from_str("ESU1"),
            Release::ESU2 => String::from_str("ESU2"),
            Release::ESU3 => String::from_str("ESU3"),
        }
    }
}

#[derive(Clone, Copy, Debug, PartialEq, Eq, Structural)]
pub enum Edition {
    Enterprise,
    EnterpriseN,
    HomeBasic,
    HomePremium,
    HomePremiumN,
    Professional,
    ProfessionalForEmbeddedSystems,
    ProfessionalN,
    Starter,
    StarterN,
    Ultimate,
    UltimateForEmbeddedSystems,
    UltimateN,
}

impl Edition {
    pub open spec fn name_spec(self) -> Seq<char> {
        match self {
            Edition::Enterprise => "Enterprise"@,
            Edition::EnterpriseN => "Enterprise N"@,
            Edition::HomeBasic => "Home Basic"@,
            Edition::HomePremium => "Home Premium"@,
            Edition::HomePremiumN => "Home Premium N"@,
            Edition::Professional => "Professional"@,
            Edition::ProfessionalForEmbeddedSystems => "Professional for Embedded Systems"@,
            Edition::ProfessionalN => "Professional N"@,
            Edition::Starter => "Starter"@,
            Edition::StarterN => "Starter N"@,
            Edition::Ultimate => "Ultimate"@,
            Edition::UltimateForEmbeddedSystems => "Ultimate for Embedded Systems"@,
            Edition::UltimateN => "Ultimate N"@,
        }
    }

    pub fn to_string(&self) -> (r: String)
        ensures
            r@ == self.name_spec(),
    {
        match *self {
            Edition::Enterprise => String::from_str("Enterprise"),
            Edition::EnterpriseN => String::from_str("Enterprise N"),
            Edition::HomeBasic => String::from_str("Home Basic"),
            Edition::HomePremium => String::from_str("Home Premium"),
            Edition::HomePremiumN => String::from_str("Home Premium N"),
            Edition::Professional => String::from_str("Professional"),
            Edition::ProfessionalForEmbeddedSystems => String::from_str(
                "Professional for Embedded Systems",
            ),
            Edition::ProfessionalN => String::from_str("Professional N"),
            Edition::Starter => String::from_str("Starter"),
            Edition::StarterN => String::from_str("Starter N"),
            Edition::Ultimate => String::from_str("Ultimate"),
            Edition::UltimateForEmbeddedSystems => String::from_str(
                "Ultimate for Embedded Systems",
            ),
            Edition::UltimateN => String::from_str("Ultimate N"),
        }
    }
}

pub struct Editions(pub Vec<Edition>);

pub open spec fn all_editions() -> Seq<Edition> {
    seq![
        Edition::Enterprise,
        Edition::EnterpriseN,
        Edition::HomeBasic,
        Edition::HomePremium,
        Edition::HomePremiumN,
        Edition::Professional,
        Edition::ProfessionalForEmbeddedSystems,
        Edition::ProfessionalN,
        Edition::Starter,
        Edition::StarterN,
        Edition::Ultimate,
        Edition::UltimateForEmbeddedSystems,
        Edition::UltimateN,
    ]
}

impl Editions {
    pub fn all() -> (r: Editions)
        ensures
            r.0@ == all_editions(),
    {
        let v = vec![
            Edition::Enterprise,
            Edition::EnterpriseN,
            Edition::HomeBasic,
            Edition::HomePremium,
            Edition::HomePremiumN,
            Edition::Professional,
            Edition::ProfessionalForEmbeddedSystems,
            Edition::ProfessionalN,
            Edition::Starter,
            Edition::StarterN,
            Edition::Ultimate,
            Edition::UltimateForEmbeddedSystems,
            Edition::UltimateN,
        ];
        proof {
            assert(v@ =~= all_editions());
        }
        Editions(v)
    }

    pub fn contains(&self, edition: Edition) -> (r: bool)
        ensures
            r == self.0@.contains(edition),
    {
        let mut i: usize = 0;
        while i < self.0.len()
            invariant
                i <= self.0@.len(),
                forall|k: int| 0 <= k < i ==> self.0@[k] != edition,
            decreases self.0@.len() - i,
        {
            if self.0[i] == edition {
                return true;
            }
            i = i + 1;
        }
        false
    }

    pub fn len(&self) -> (r: usize)
        ensures
            r == self.0@.len(),
    {
        self.0.len()
    }
}

/// The structured grammar: discriminator `7`, then exactly one release token
/// from the recognized vocabulary.
pub open spec fn accepts(toks: Seq<Seq<char>>) -> bool {
    &&& toks.len() == 2
    &&& toks[0] == "7"@
    &&& Release::from_token_spec(toks[1]) is Some
}

pub open spec fn reject_reason(toks: Seq<Seq<char>>) -> ParseError {
    if toks[0] != "7"@ {
        ParseError::NotThisFamily
    } else if toks.len() != 2 {
        ParseError::MalformedLabel
    } else {
        ParseError::UnrecognizedField
    }
}

/// Every field of a well-formed record but the release is fixed.
pub open spec fn wf(w: Windows7) -> bool {
    &&& w.vendor@ == "Microsoft"@
    &&& w.product@ == "Windows 7"@
    &&& w.editions.0@ == all_editions()
}

impl Windows7 {
    pub fn parse(tokens: &Vec<String>) -> (r: Result<Windows7, ParseError>)
        requires
            tokens@.len() >= 1,
        ensures
            match r {
                Ok(w) => accepts(tokens.deep_view()) && wf(w) && Release::from_token_spec(
                    tokens.deep_view()[1],
                ) == Some(w.release),
                Err(e) => !accepts(tokens.deep_view()) && e == reject_reason(tokens.deep_view()),
            },
    {
        proof {
            assert(tokens.deep_view()[0] == tokens@[0]@);
        }
        if !text::str_eq(tokens[0].as_str(), "7") {
            return Err(ParseError::NotThisFamily);
        }
        if tokens.len() != 2 {
            return Err(ParseError::MalformedLabel);
        }
        proof {
            assert(tokens.deep_view()[1] == tokens@[1]@);
        }
        match Release::try_from_token(tokens[1].as_str()) {
            Some(release) => Ok(
                Windows7 {
                    vendor: String::from_str("Microsoft"),
                    product: String::from_str("Windows 7"),
                    release,
                    editions: Editions::all(),
                },
            ),
            None => Err(ParseError::UnrecognizedField),
        }
    }

    /// The line rendered for one edition: vendor, product, edition, release.
    pub open spec fn line_spec(self, e: Edition) -> Seq<char> {
        self.vendor@ + " "@ + self.product@ + " "@ + e.name_spec() + " "@
            + self.release.name_spec()
    }

    /// One display line per edition.
    pub fn to_string(&self) -> (r: Vec<String>)
        ensures
            r.deep_view().len() == self.editions.0@.len(),
            forall|i: int|
                0 <= i < r.deep_view().len() ==> r.deep_view()[i] == self.line_spec(
                    self.editions.0@[i],
                ),
    {
        let mut out: Vec<String> = Vec::new();
        let mut i: usize = 0;
        while i < self.editions.0.len()
            invariant
                i <= self.editions.0@.len(),
                out.deep_view().len() == i,
                forall|k: int|
                    0 <= k < i ==> out.deep_view()[k] == self.line_spec(self.editions.0@[k]),
            decreases self.editions.0@.len() - i,
        {
            let e = self.editions.0[i];
            let mut line = String::from_str(self.vendor.as_str());
            line.append(" ");
            line.append(self.product.as_str());
            line.append(" ");
            let en = e.to_string();
            line.append(en.as_str());
            line.append(" ");
            let rn = self.release.to_string();
            line.append(rn.as_str());
            let ghost prev = out.deep_view();
            out.push(line);
            proof {
                assert(out.deep_view() =~= prev.push(line@));
            }
            i = i + 1;
        }
        out
    }
}

} // verus!
