//! Windows Server 2019 and later: a single bare year token between `2019`
//! and `2999` in lexicographic order. The year is interpolated into the
//! product name; there is no separate release label.

use vstd::prelude::*;
use vstd::string::StringExecFns;

use crate::errors::ParseError;
use crate::text;

verus! {

pub struct WindowsServer2019ff {
    pub vendor: String,
    pub product: String,
    pub editions: Editions,
    pub release: Option<Release>,
    pub service_channel: ServiceChannel,
}

pub struct Release(pub String);

impl Release {
    pub fn to_string(&self) -> (r: String)
        ensures
            r@ == self.0@,
    {
        self.0.clone()
    }
}

#[derive(Clone, Copy, Debug, PartialEq, Eq, Structural)]
pub enum ServiceChannel {
    LTSB,
}

impl ServiceChannel {
    pub open spec fn name_spec(self) -> Seq<char> {
        "LTSB"@
    }

    pub fn is_default(&self) -> (r: bool)
        ensures
            r == true,
    {
        match *self {
            ServiceChannel::LTSB => true,
        }
    }

    pub fn to_string(&self) -> (r: String)
        ensures
            r@ == self.name_spec(),
    {
        String::from_str("LTSB")
    }
}

#[derive(Clone, Copy, Debug, PartialEq, Eq, Structural)]
pub enum Edition {
    Datacenter,
    Standard,
}

impl Edition {
    pub open spec fn name_spec(self) -> Seq<char> {
        match self {
            Edition::Datacenter => "Datacenter"@,
            Edition::Standard => "Standard"@,
        }
    }

    pub fn to_string(&self) -> (r: String)
        ensures
            r@ == self.name_spec(),
    {
        match *self {
            Edition::Datacenter => String::from_str("Datacenter"),
            Edition::Standard => String::from_str("Standard"),
        }
    }
}

pub struct Editions(pub Vec<Edition>);

pub open spec fn all_editions() -> Seq<Edition> {
    seq![Edition::Datacenter, Edition::Standard]
}

impl Editions {
    pub fn all() -> (r: Editions)
        ensures
            r.0@ == all_editions(),
    {
        let v = vec![Edition::Datacenter, Edition::Standard];
        proof {
            assert(v@ =~= all_editions());
        }
        Editions(v)
    }

    pub fn contains(&self, edition: Edition) -> (r: bool)
        ensures
            r == self.0@.contains(edition),
    {
        let mut i: usize = 0;
        while i < self.0.len()
            invariant
                i <= self.0@.len(),
                forall|k: int| 0 <= k < i ==> self.0@[k] != edition,
            decreases self.0@.len() - i,
        {
            if self.0[i] == edition {
                return true;
            }
            i = i + 1;
        }
        false
    }

    pub fn len(&self) -> (r: usize)
        ensures
            r == self.0@.len(),
    {
        self.0.len()
    }
}

/// The grammar: exactly one token, a year between `2019` and `2999` in
/// lexicographic order.
pub open spec fn accepts(toks: Seq<Seq<char>>) -> bool {
    &&& toks.len() == 1
    &&& text::lex_le("2019"@, toks[0])
    &&& text::lex_le(toks[0], "2999"@)
}

pub open spec fn wf(w: WindowsServer2019ff) -> bool {
    &&& w.vendor@ == "Microsoft"@
    &&& w.editions.0@ == all_editions()
    &&& w.release is None
    &&& w.service_channel == ServiceChannel::LTSB
}

impl WindowsServer2019ff {
    pub fn parse(tokens: &Vec<String>) -> (r: Result<WindowsServer2019ff, ParseError>)
        requires
            tokens@.len() >= 1,
        ensures
            match r {
                Ok(w) => accepts(tokens.deep_view()) && wf(w) && w.product@ == "Windows Server "@
                    + tokens.deep_view()[0],
                Err(e) => !accepts(tokens.deep_view()) && e == ParseError::NotThisFamily,
            },
    {
        proof {
            assert(tokens.deep_view()[0] == tokens@[0]@);
        }
        if tokens.len() != 1 {
            return Err(ParseError::NotThisFamily);
        }
        let first = tokens[0].as_str();
        if !text::str_lex_le("2019", first) || !text::str_lex_le(first, "2999") {
            return Err(ParseError::NotThisFamily);
        }
        let mut product = String::from_str("Windows Server ");
        product.append(first);
        Ok(
            WindowsServer2019ff {
                vendor: String::from_str("Microsoft"),
                product,
                editions: Editions::all(),
                release: None,
                service_channel: ServiceChannel::LTSB,
            },
        )
    }

    /// The line rendered for one edition: vendor, product (which already
    /// carries the year), edition, and the release when there is one.
    pub open spec fn line_spec(self, e: Edition) -> Seq<char> {
        match self.release {
            Some(rel) => self.vendor@ + " "@ + self.product@ + " "@ + e.name_spec() + " "@
                + rel.0@,
            None => self.vendor@ + " "@ + self.product@ + " "@ + e.name_spec(),
        }
    }

    /// One display line per edition.
    pub fn to_string(&self) -> (r: Vec<String>)
        ensures
            r.deep_view().len() == self.editions.0@.len(),
            forall|i: int|
                0 <= i < r.deep_view().len() ==> r.deep_view()[i] == self.line_spec(
                    self.editions.0@[i],
                ),
    {
        let mut out: Vec<String> = Vec::new();
        let mut i: usize = 0;
        while i < self.editions.0.len()
            invariant
                i <= self.editions.0@.len(),
                out.deep_view().len() == i,
                forall|k: int|
                    0 <= k < i ==> out.deep_view()[k] == self.line_spec(self.editions.0@[k]),
            decreases self.editions.0@.len() - i,
        {
            let e = self.editions.0[i];
            let mut line = String::from_str(self.vendor.as_str());
            line.append(" ");
            line.append(self.product.as_str());
            line.append(" ");
            let en = e.to_string();
            line.append(en.as_str());
            match &self.release {
                Some(rel) => {
                    line.append(" ");
                    let rn = rel.to_string();
                    line.append(rn.as_str());
                },
                None => {},
            }
            let ghost prev = out.deep_view();
            out.push(line);
            proof {
                assert(out.deep_view() =~= prev.push(line@));
            }
            i = i + 1;
        }
        out
    }
}

} // verus!
