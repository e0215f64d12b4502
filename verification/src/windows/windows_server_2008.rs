//! Windows Server 2008: structured labels `2008` or `2008-<release>`. The
//! release token is free-form and is only case-normalized; the channel is
//! the long-term one and is never rendered.

use vstd::prelude::*;
use vstd::string::StringExecFns;

use crate::errors::ParseError;
use crate::text;

verus! {

pub struct WindowsServer2008 {
    pub vendor: String,
    pub product: String,
    pub editions: Editions,
    pub release: Option<Release>,
    pub service_channel: ServiceChannel,
}

pub struct Release(pub String);

impl Release {
    pub fn from_token(t: &str) -> (r: Release)
        ensures
            r.0@ == text::upper_seq(t@),
    {
        Release(text::to_upper(t))
    }

    pub fn to_string(&self) -> (r: String)
        ensures
            r@ == self.0@,
    {
        self.0.clone()
    }
}

#[derive(Clone, Copy, Debug, PartialEq, Eq, Structural)]
pub enum ServiceChannel {
    LTSC,
}

impl ServiceChannel {
    pub open spec fn name_spec(self) -> Seq<char> {
        "LTSC"@
    }

    pub fn is_default(&self) -> (r: bool)
        ensures
            r == true,
    {
        match *self {
            ServiceChannel::LTSC => true,
        }
    }

    pub fn to_string(&self) -> (r: String)
        ensures
            r@ == self.name_spec(),
    {
        String::from_str("LTSC")
    }
}

#[derive(Clone, Copy, Debug, PartialEq, Eq, Structural)]
pub enum Edition {
    Datacenter,
    Enterprise,
    Foundation,
    Standard,
    Web,
}

impl Edition {
    pub open spec fn name_spec(self) -> Seq<char> {
        match self {
            Edition::Datacenter => "Datacenter"@,
            Edition::Enterprise => "Enterprise"@,
            Edition::Foundation => "Foundation"@,
            Edition::Standard => "Standard"@,
            Edition::Web => "Web"@,
        }
    }

    pub fn to_string(&self) -> (r: String)
        ensures
            r@ == self.name_spec(),
    {
        match *self {
            Edition::Datacenter => String::from_str("Datacenter"),
            Edition::Enterprise => String::from_str("Enterprise"),
            Edition::Foundation => String::from_str("Foundation"),
            Edition::Standard => String::from_str("Standard"),
            Edition::Web => String::from_str("Web"),
        }
    }
}

pub struct Editions(pub Vec<Edition>);

pub open spec fn all_editions() -> Seq<Edition> {
    seq![
        Edition::Datacenter,
        Edition::Enterprise,
        Edition::Foundation,
        Edition::Standard,
        Edition::Web,
    ]
}

impl Editions {
    pub fn all() -> (r: Editions)
        ensures
            r.0@ == all_editions(),
    {
        let v = vec![
            Edition::Datacenter,
            Edition::Enterprise,
            Edition::Foundation,
            Edition::Standard,
            Edition::Web,
        ];
        proof {
            assert(v@ =~= all_editions());
        }
        Editions(v)
    }

    pub fn contains(&self, edition: Edition) -> (r: bool)
        ensures
            r == self.0@.contains(edition),
    {
        let mut i: usize = 0;
        while i < self.0.len()
            invariant
                i <= self.0@.len(),
                forall|k: int| 0 <= k < i ==> self.0@[k] != edition,
            decreases self.0@.len() - i,
        {
            if self.0[i] == edition {
                return true;
            }
            i = i + 1;
        }
        false
    }

    pub fn len(&self) -> (r: usize)
        ensures
            r == self.0@.len(),
    {
        self.0.len()
    }
}

/// The structured grammar: the year discriminator alone, or the year and
/// one release token.
pub open spec fn accepts(toks: Seq<Seq<char>>) -> bool {
    &&& toks[0] == "2008"@
    &&& (toks.len() == 1 || toks.len() == 2)
}

pub open spec fn reject_reason(toks: Seq<Seq<char>>) -> ParseError {
    if toks[0] != "2008"@ {
        ParseError::NotThisFamily
    } else {
        ParseError::MalformedLabel
    }
}

pub open spec fn wf(w: WindowsServer2008) -> bool {
    &&& w.vendor@ == "Microsoft"@
    &&& w.product@ == "Windows Server 2008"@
    &&& w.editions.0@ == all_editions()
    &&& w.service_channel == ServiceChannel::LTSC
}

/// The release of the record parsed from `toks`.
pub open spec fn release_of(toks: Seq<Seq<char>>, r: Option<Release>) -> bool {
    match r {
        Some(rel) => toks.len() == 2 && rel.0@ == text::upper_seq(toks[1]),
        None => toks.len() == 1,
    }
}

impl WindowsServer2008 {
    pub fn parse(tokens: &Vec<String>) -> (r: Result<WindowsServer2008, ParseError>)
        requires
            tokens@.len() >= 1,
        ensures
            match r {
                Ok(w) => accepts(tokens.deep_view()) && wf(w) && release_of(
                    tokens.deep_view(),
                    w.release,
                ),
                Err(e) => !accepts(tokens.deep_view()) && e == reject_reason(tokens.deep_view()),
            },
    {
        proof {
            assert(tokens.deep_view()[0] == tokens@[0]@);
        }
        if !text::str_eq(tokens[0].as_str(), "2008") {
            return Err(ParseError::NotThisFamily);
        }
        if tokens.len() > 2 {
            return Err(ParseError::MalformedLabel);
        }
        let release = if tokens.len() == 2 {
            proof {
                assert(tokens.deep_view()[1] == tokens@[1]@);
            }
            Some(Release::from_token(tokens[1].as_str()))
        } else {
            None
        };
        Ok(
            WindowsServer2008 {
                vendor: String::from_str("Microsoft"),
                product: String::from_str("Windows Server 2008"),
                editions: Editions::all(),
                release,
                service_channel: ServiceChannel::LTSC,
            },
        )
    }

    /// The line rendered for one edition: vendor, product, edition, and the
    /// release when there is one.
    pub open spec fn line_spec(self, e: Edition) -> Seq<char> {
        match self.release {
            Some(rel) => self.vendor@ + " "@ + self.product@ + " "@ + e.name_spec() + " "@
                + rel.0@,
            None => self.vendor@ + " "@ + self.product@ + " "@ + e.name_spec(),
        }
    }

    /// One display line per edition.
    pub fn to_string(&self) -> (r: Vec<String>)
        ensures
            r.deep_view().len() == self.editions.0@.len(),
            forall|i: int|
                0 <= i < r.deep_view().len() ==> r.deep_view()[i] == self.line_spec(
                    self.editions.0@[i],
                ),
    {
        let mut out: Vec<String> = Vec::new();
        let mut i: usize = 0;
        while i < self.editions.0.len()
            invariant
                i <= self.editions.0@.len(),
                out.deep_view().len() == i,
                forall|k: int|
                    0 <= k < i ==> out.deep_view()[k] == self.line_spec(self.editions.0@[k]),
            decreases self.editions.0@.len() - i,
        {
            let e = self.editions.0[i];
            let mut line = String::from_str(self.vendor.as_str());
            line.append(" ");
            line.append(self.product.as_str());
            line.append(" ");
            let en = e.to_string();
            line.append(en.as_str());
            match &self.release {
                Some(rel) => {
                    line.append(" ");
                    let rn = rel.to_string();
                    line.append(rn.as_str());
                },
                None => {},
            }
            let ghost prev = out.deep_view();
            out.push(line);
            proof {
                assert(out.deep_view() =~= prev.push(line@));
            }
            i = i + 1;
        }
        out
    }
}

} // verus!
