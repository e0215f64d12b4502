//! Windows Server, semi-annual and annual channel releases (1709 and
//! later): labels `<release>-ac` or `<release>-sac`. The channel token
//! selects the edition set; neither channel is rendered.

use vstd::prelude::*;
use vstd::string::StringExecFns;

use crate::errors::ParseError;
use crate::text;

verus! {

pub struct WindowsServer1709ff {
    pub vendor: String,
    pub product: String,
    pub editions: Editions,
    pub release: Option<Release>,
    pub service_channel: ServiceChannel,
}

pub struct Release(pub String);

impl Release {
    pub fn from_token(t: &str) -> (r: Release)
        ensures
            r.0@ == text::upper_seq(t@),
    {
        Release(text::to_upper(t))
    }

    pub fn to_string(&self) -> (r: String)
        ensures
            r@ == self.0@,
    {
        self.0.clone()
    }
}

#[derive(Clone, Copy, Debug, PartialEq, Eq, Structural)]
pub enum ServiceChannel {
    AC,
    SAC,
}

impl ServiceChannel {
    pub open spec fn name_spec(self) -> Seq<char> {
        match self {
            ServiceChannel::AC => "AC"@,
            ServiceChannel::SAC => "SAC"@,
        }
    }

    pub fn is_default(&self) -> (r: bool)
        ensures
            r == true,
    {
        match *self {
            ServiceChannel::AC => true,
            ServiceChannel::SAC => true,
        }
    }

    pub fn to_string(&self) -> (r: String)
        ensures
            r@ == self.name_spec(),
    {
        match *self {
            ServiceChannel::AC => String::from_str("AC"),
            ServiceChannel::SAC => String::from_str("SAC"),
        }
    }
}

#[derive(Clone, Copy, Debug, PartialEq, Eq, Structural)]
pub enum Edition {
    Datacenter,
    Standard,
}

impl Edition {
    pub open spec fn name_spec(self) -> Seq<char> {
        match self {
            Edition::Datacenter => "Datacenter"@,
            Edition::Standard => "Standard"@,
        }
    }

    pub fn to_string(&self) -> (r: String)
        ensures
            r@ == self.name_spec(),
    {
        match *self {
            Edition::Datacenter => String::from_str("Datacenter"),
            Edition::Standard => String::from_str("Standard"),
        }
    }
}

pub struct Editions(pub Vec<Edition>);

pub open spec fn all_editions() -> Seq<Edition> {
    seq![Edition::Datacenter, Edition::Standard]
}

/// The editions a channel makes available: the annual channel ships
/// Datacenter only, the semi-annual channel ships both.
pub open spec fn editions_for_channel(c: ServiceChannel) -> Seq<Edition> {
    match c {
        ServiceChannel::AC => seq![Edition::Datacenter],
        ServiceChannel::SAC => all_editions(),
    }
}

impl Editions {
    pub fn all() -> (r: Editions)
        ensures
            r.0@ == all_editions(),
    {
        let v = vec![Edition::Datacenter, Edition::Standard];
        proof {
            assert(v@ =~= all_editions());
        }
        Editions(v)
    }

    pub fn for_channel(c: &ServiceChannel) -> (r: Editions)
        ensures
            r.0@ == editions_for_channel(*c),
    {
        match *c {
            ServiceChannel::AC => {
                let v = vec![Edition::Datacenter];
                proof {
                    assert(v@ =~= editions_for_channel(ServiceChannel::AC));
                }
                Editions(v)
            },
            ServiceChannel::SAC => Editions::all(),
        }
    }

    pub fn contains(&self, edition: Edition) -> (r: bool)
        ensures
            r == self.0@.contains(edition),
    {
        let mut i: usize = 0;
        while i < self.0.len()
            invariant
                i <= self.0@.len(),
                forall|k: int| 0 <= k < i ==> self.0@[k] != edition,
            decreases self.0@.len() - i,
        {
            if self.0[i] == edition {
                return true;
            }
            i = i + 1;
        }
        false
    }

    pub fn len(&self) -> (r: usize)
        ensures
            r == self.0@.len(),
    {
        self.0.len()
    }
}

/// The grammar: a release token at least `1709` in lexicographic order,
/// then exactly one channel token, `ac` or `sac`.
pub open spec fn accepts(toks: Seq<Seq<char>>) -> bool {
    &&& toks.len() == 2
    &&& text::lex_le("1709"@, toks[0])
    &&& (toks[1] == "ac"@ || toks[1] == "sac"@)
}

pub open spec fn reject_reason(toks: Seq<Seq<char>>) -> ParseError {
    if toks.len() < 2 || !text::lex_le("1709"@, toks[0]) || !(toks[1] == "ac"@ || toks[1]
        == "sac"@) {
        ParseError::NotThisFamily
    } else {
        ParseError::MalformedLabel
    }
}

pub open spec fn channel_of(toks: Seq<Seq<char>>) -> ServiceChannel {
    if toks[1] == "ac"@ {
        ServiceChannel::AC
    } else {
        ServiceChannel::SAC
    }
}

pub open spec fn wf(w: WindowsServer1709ff) -> bool {
    &&& w.vendor@ == "Microsoft"@
    &&& w.product@ == "Windows Server"@
    &&& w.editions.0@ == editions_for_channel(w.service_channel)
}

impl WindowsServer1709ff {
    pub fn parse(tokens: &Vec<String>) -> (r: Result<WindowsServer1709ff, ParseError>)
        requires
            tokens@.len() >= 1,
        ensures
            match r {
                Ok(w) => {
                    let toks = tokens.deep_view();
                    &&& accepts(toks)
                    &&& wf(w)
                    &&& w.service_channel == channel_of(toks)
                    &&& w.release matches Some(rel) && rel.0@ == text::upper_seq(toks[0])
                },
                Err(e) => !accepts(tokens.deep_view()) && e == reject_reason(tokens.deep_view()),
            },
    {
        proof {
            assert(tokens.deep_view()[0] == tokens@[0]@);
            assert(tokens@.len() >= 2 ==> tokens.deep_view()[1] == tokens@[1]@);
        }
        if tokens.len() < 2 {
            return Err(ParseError::NotThisFamily);
        }
        if !text::str_lex_le("1709", tokens[0].as_str()) {
            return Err(ParseError::NotThisFamily);
        }
        let is_ac = text::str_eq(tokens[1].as_str(), "ac");
        let is_sac = text::str_eq(tokens[1].as_str(), "sac");
        if !is_ac && !is_sac {
            return Err(ParseError::NotThisFamily);
        }
        if tokens.len() != 2 {
            return Err(ParseError::MalformedLabel);
        }
        let service_channel = if is_ac {
            ServiceChannel::AC
        } else {
            ServiceChannel::SAC
        };
        let editions = Editions::for_channel(&service_channel);
        Ok(
            WindowsServer1709ff {
                vendor: String::from_str("Microsoft"),
                product: String::from_str("Windows Server"),
                editions,
                release: Some(Release::from_token(tokens[0].as_str())),
                service_channel,
            },
        )
    }

    /// The line rendered for one edition: vendor, product, edition, and the
    /// release when there is one. Both channels are default channels, so no
    /// channel suffix is ever added.
    pub open spec fn line_spec(self, e: Edition) -> Seq<char> {
        match self.release {
            Some(rel) => self.vendor@ + " "@ + self.product@ + " "@ + e.name_spec() + " "@
                + rel.0@,
            None => self.vendor@ + " "@ + self.product@ + " "@ + e.name_spec(),
        }
    }

    /// One display line per edition.
    pub fn to_string(&self) -> (r: Vec<String>)
        ensures
            r.deep_view().len() == self.editions.0@.len(),
            forall|i: int|
                0 <= i < r.deep_view().len() ==> r.deep_view()[i] == self.line_spec(
                    self.editions.0@[i],
                ),
    {
        let mut out: Vec<String> = Vec::new();
        let mut i: usize = 0;
        while i < self.editions.0.len()
            invariant
                i <= self.editions.0@.len(),
                out.deep_view().len() == i,
                forall|k: int|
                    0 <= k < i ==> out.deep_view()[k] == self.line_spec(self.editions.0@[k]),
            decreases self.editions.0@.len() - i,
        {
            let e = self.editions.0[i];
            let mut line = String::from_str(self.vendor.as_str());
            line.append(" ");
            line.append(self.product.as_str());
            line.append(" ");
            let en = e.to_string();
            line.append(en.as_str());
            match &self.release {
                Some(rel) => {
                    line.append(" ");
                    let rn = rel.to_string();
                    line.append(rn.as_str());
                },
                None => {},
            }
            let ghost prev = out.deep_view();
            out.push(line);
            proof {
                assert(out.deep_view() =~= prev.push(line@));
            }
            i = i + 1;
        }
        out
    }
}

} // verus!
