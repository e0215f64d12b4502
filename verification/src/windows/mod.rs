//! The supported Windows product families, and the dispatcher that tries
//! them one after the other in a fixed precedence order: newest client
//! releases first, then the older client releases, then the server
//! releases newest-first, and the oldest client release last. Token
//! grammars overlap between families, so the first success wins.

pub mod windows_10;
pub mod windows_11;
pub mod windows_2000;
pub mod windows_7;
pub mod windows_8;
pub mod windows_server_1709ff;
pub mod windows_server_2003;
pub mod windows_server_2008;
pub mod windows_server_2008_r2;
pub mod windows_server_2012;
pub mod windows_server_2012_r2;
pub mod windows_server_2016;
pub mod windows_server_2019ff;
pub mod windows_vista;
pub mod windows_xp;

use vstd::prelude::*;

use crate::errors::ParseError;
use crate::text;

verus! {

/// One variant per product family, in dispatch precedence order.
pub enum WindowsClientOS {
    Windows11(windows_11::Windows11),
    Windows10(windows_10::Windows10),
    Windows8(windows_8::Windows8),
    Windows7(windows_7::Windows7),
    WindowsVista(windows_vista::WindowsVista),
    WindowsXP(windows_xp::WindowsXP),
    WindowsServer1709ff(windows_server_1709ff::WindowsServer1709ff),
    WindowsServer2019ff(windows_server_2019ff::WindowsServer2019ff),
    WindowsServer2016(windows_server_2016::WindowsServer2016),
    WindowsServer2012R2(windows_server_2012_r2::WindowsServer2012R2),
    WindowsServer2012(windows_server_2012::WindowsServer2012),
    WindowsServer2008R2(windows_server_2008_r2::WindowsServer2008R2),
    WindowsServer2008(windows_server_2008::WindowsServer2008),
    WindowsServer2003(windows_server_2003::WindowsServer2003),
    Windows2000(windows_2000::Windows2000),
}

/// Which families accept the input. The token families read the dash-split
/// tokens of the raw string; the dual-mode families classify first.
pub open spec fn accepts_11(s: Seq<char>) -> bool {
    windows_11::accepts(s)
}

pub open spec fn accepts_10(s: Seq<char>) -> bool {
    windows_10::accepts(s)
}

pub open spec fn accepts_8(s: Seq<char>) -> bool {
    windows_8::accepts(s)
}

pub open spec fn accepts_7(s: Seq<char>) -> bool {
    windows_7::accepts(text::split_dashes(s))
}

pub open spec fn accepts_vista(s: Seq<char>) -> bool {
    windows_vista::accepts(text::split_dashes(s))
}

pub open spec fn accepts_xp(s: Seq<char>) -> bool {
    windows_xp::accepts(text::split_dashes(s))
}

pub open spec fn accepts_1709ff(s: Seq<char>) -> bool {
    windows_server_1709ff::accepts(text::split_dashes(s))
}

pub open spec fn accepts_2019ff(s: Seq<char>) -> bool {
    windows_server_2019ff::accepts(text::split_dashes(s))
}

pub open spec fn accepts_2016(s: Seq<char>) -> bool {
    windows_server_2016::accepts(text::split_dashes(s))
}

pub open spec fn accepts_2012_r2(s: Seq<char>) -> bool {
    windows_server_2012_r2::accepts(text::split_dashes(s))
}

pub open spec fn accepts_2012(s: Seq<char>) -> bool {
    windows_server_2012::accepts(text::split_dashes(s))
}

pub open spec fn accepts_2008_r2(s: Seq<char>) -> bool {
    windows_server_2008_r2::accepts(text::split_dashes(s))
}

pub open spec fn accepts_2008(s: Seq<char>) -> bool {
    windows_server_2008::accepts(text::split_dashes(s))
}

pub open spec fn accepts_2003(s: Seq<char>) -> bool {
    windows_server_2003::accepts(text::split_dashes(s))
}

pub open spec fn accepts_2000(s: Seq<char>) -> bool {
    windows_2000::accepts(text::split_dashes(s))
}

/// Some family accepts the input.
pub open spec fn accepts_any(s: Seq<char>) -> bool {
    ||| accepts_11(s)
    ||| accepts_10(s)
    ||| accepts_8(s)
    ||| accepts_7(s)
    ||| accepts_vista(s)
    ||| accepts_xp(s)
    ||| accepts_1709ff(s)
    ||| accepts_2019ff(s)
    ||| accepts_2016(s)
    ||| accepts_2012_r2(s)
    ||| accepts_2012(s)
    ||| accepts_2008_r2(s)
    ||| accepts_2008(s)
    ||| accepts_2003(s)
    ||| accepts_2000(s)
}

/// The dispatch relation: the record is the one produced by the first
/// family in precedence order that accepts the input.
pub open spec fn dispatch_ok(s: Seq<char>, w: WindowsClientOS) -> bool {
    let toks = text::split_dashes(s);
    match w {
        WindowsClientOS::Windows11(x) => accepts_11(s) && windows_11::parse_ok(s, x),
        WindowsClientOS::Windows10(x) => !accepts_11(s) && accepts_10(s) && windows_10::parse_ok(
            s,
            x,
        ),
        WindowsClientOS::Windows8(x) => !accepts_11(s) && !accepts_10(s) && accepts_8(s)
            && windows_8::wf(x) && x.product@ == windows_8::product_of(s),
        WindowsClientOS::Windows7(x) => !accepts_11(s) && !accepts_10(s) && !accepts_8(s)
            && accepts_7(s) && windows_7::wf(x) && windows_7::Release::from_token_spec(toks[1])
            == Some(x.release),
        WindowsClientOS::WindowsVista(x) => !accepts_11(s) && !accepts_10(s) && !accepts_8(s)
            && !accepts_7(s) && accepts_vista(s) && windows_vista::wf(x)
            && windows_vista::Release::from_token_spec(toks[1]) == Some(x.release),
        WindowsClientOS::WindowsXP(x) => !accepts_11(s) && !accepts_10(s) && !accepts_8(s)
            && !accepts_7(s) && !accepts_vista(s) && accepts_xp(s) && windows_xp::wf(x)
            && windows_xp::Release::from_token_spec(toks[1]) == Some(x.release),
        WindowsClientOS::WindowsServer1709ff(x) => !accepts_11(s) && !accepts_10(s) && !accepts_8(
            s,
        ) && !accepts_7(s) && !accepts_vista(s) && !accepts_xp(s) && accepts_1709ff(s)
            && windows_server_1709ff::wf(x) && x.service_channel
            == windows_server_1709ff::channel_of(toks) && (x.release matches Some(rel) && rel.0@
            == text::upper_seq(toks[0])),
        WindowsClientOS::WindowsServer2019ff(x) => !accepts_11(s) && !accepts_10(s) && !accepts_8(
            s,
        ) && !accepts_7(s) && !accepts_vista(s) && !accepts_xp(s) && !accepts_1709ff(s)
            && accepts_2019ff(s) && windows_server_2019ff::wf(x) && x.product@
            == "Windows Server "@ + toks[0],
        WindowsClientOS::WindowsServer2016(x) => !accepts_11(s) && !accepts_10(s) && !accepts_8(s)
            && !accepts_7(s) && !accepts_vista(s) && !accepts_xp(s) && !accepts_1709ff(s)
            && !accepts_2019ff(s) && accepts_2016(s) && windows_server_2016::wf(x)
            && windows_server_2016::release_of(toks, x.release),
        WindowsClientOS::WindowsServer2012R2(x) => !accepts_11(s) && !accepts_10(s) && !accepts_8(
            s,
        ) && !accepts_7(s) && !accepts_vista(s) && !accepts_xp(s) && !accepts_1709ff(s)
            && !accepts_2019ff(s) && !accepts_2016(s) && accepts_2012_r2(s)
            && windows_server_2012_r2::wf(x) && windows_server_2012_r2::release_of(
            toks,
            x.release,
        ),
        WindowsClientOS::WindowsServer2012(x) => !accepts_11(s) && !accepts_10(s) && !accepts_8(s)
            && !accepts_7(s) && !accepts_vista(s) && !accepts_xp(s) && !accepts_1709ff(s)
            && !accepts_2019ff(s) && !accepts_2016(s) && !accepts_2012_r2(s) && accepts_2012(s)
            && windows_server_2012::wf(x) && windows_server_2012::release_of(toks, x.release),
        WindowsClientOS::WindowsServer2008R2(x) => !accepts_11(s) && !accepts_10(s) && !accepts_8(
            s,
        ) && !accepts_7(s) && !accepts_vista(s) && !accepts_xp(s) && !accepts_1709ff(s)
            && !accepts_2019ff(s) && !accepts_2016(s) && !accepts_2012_r2(s) && !accepts_2012(s)
            && accepts_2008_r2(s) && windows_server_2008_r2::wf(x)
            && windows_server_2008_r2::release_of(toks, x.release),
        WindowsClientOS::WindowsServer2008(x) => !accepts_11(s) && !accepts_10(s) && !accepts_8(s)
            && !accepts_7(s) && !accepts_vista(s) && !accepts_xp(s) && !accepts_1709ff(s)
            && !accepts_2019ff(s) && !accepts_2016(s) && !accepts_2012_r2(s) && !accepts_2012(s)
            && !accepts_2008_r2(s) && accepts_2008(s) && windows_server_2008::wf(x)
            && windows_server_2008::release_of(toks, x.release),
        WindowsClientOS::WindowsServer2003(x) => !accepts_11(s) && !accepts_10(s) && !accepts_8(s)
            && !accepts_7(s) && !accepts_vista(s) && !accepts_xp(s) && !accepts_1709ff(s)
            && !accepts_2019ff(s) && !accepts_2016(s) && !accepts_2012_r2(s) && !accepts_2012(s)
            && !accepts_2008_r2(s) && !accepts_2008(s) && accepts_2003(s)
            && windows_server_2003::wf(x) && windows_server_2003::release_of(toks, x.release),
        WindowsClientOS::Windows2000(x) => !accepts_11(s) && !accepts_10(s) && !accepts_8(s)
            && !accepts_7(s) && !accepts_vista(s) && !accepts_xp(s) && !accepts_1709ff(s)
            && !accepts_2019ff(s) && !accepts_2016(s) && !accepts_2012_r2(s) && !accepts_2012(s)
            && !accepts_2008_r2(s) && !accepts_2008(s) && !accepts_2003(s) && accepts_2000(s)
            && windows_2000::wf(x) && windows_2000::release_of(toks, x.release),
    }
}

/// The display lines of a resolved record: one per edition, or a single
/// line for a record without an edition concept.
pub open spec fn os_lines(w: WindowsClientOS) -> Seq<Seq<char>> {
    match w {
        WindowsClientOS::Windows11(x) => Seq::new(
            x.editions.0@.len(),
            |i: int| x.line_spec(x.editions.0@[i]),
        ),
        WindowsClientOS::Windows10(x) => match x.editions {
            Some(eds) => Seq::new(eds.0@.len(), |i: int| x.line_spec(eds.0@[i])),
            None => seq![x.line_no_edition_spec()],
        },
        WindowsClientOS::Windows8(x) => Seq::new(
            x.editions.0@.len(),
            |i: int| x.line_spec(x.editions.0@[i]),
        ),
        WindowsClientOS::Windows7(x) => Seq::new(
            x.editions.0@.len(),
            |i: int| x.line_spec(x.editions.0@[i]),
        ),
        WindowsClientOS::WindowsVista(x) => Seq::new(
            x.editions.0@.len(),
            |i: int| x.line_spec(x.editions.0@[i]),
        ),
        WindowsClientOS::WindowsXP(x) => Seq::new(
            x.editions.0@.len(),
            |i: int| x.line_spec(x.editions.0@[i]),
        ),
        WindowsClientOS::WindowsServer1709ff(x) => Seq::new(
            x.editions.0@.len(),
            |i: int| x.line_spec(x.editions.0@[i]),
        ),
        WindowsClientOS::WindowsServer2019ff(x) => Seq::new(
            x.editions.0@.len(),
            |i: int| x.line_spec(x.editions.0@[i]),
        ),
        WindowsClientOS::WindowsServer2016(x) => Seq::new(
            x.editions.0@.len(),
            |i: int| x.line_spec(x.editions.0@[i]),
        ),
        WindowsClientOS::WindowsServer2012R2(x) => Seq::new(
            x.editions.0@.len(),
            |i: int| x.line_spec(x.editions.0@[i]),
        ),
        WindowsClientOS::WindowsServer2012(x) => Seq::new(
            x.editions.0@.len(),
            |i: int| x.line_spec(x.editions.0@[i]),
        ),
        WindowsClientOS::WindowsServer2008R2(x) => Seq::new(
            x.editions.0@.len(),
            |i: int| x.line_spec(x.editions.0@[i]),
        ),
        WindowsClientOS::WindowsServer2008(x) => Seq::new(
            x.editions.0@.len(),
            |i: int| x.line_spec(x.editions.0@[i]),
        ),
        WindowsClientOS::WindowsServer2003(x) => Seq::new(
            x.editions.0@.len(),
            |i: int| x.line_spec(x.editions.0@[i]),
        ),
        WindowsClientOS::Windows2000(x) => Seq::new(
            x.editions.0@.len(),
            |i: int| x.line_spec(x.editions.0@[i]),
        ),
    }
}

impl WindowsClientOS {
    /// Try every family in precedence order; the first success wins, and
    /// only the aggregate failure crosses this boundary.
    pub fn parse(value: &str) -> (r: Result<WindowsClientOS, ParseError>)
        ensures
            match r {
                Ok(w) => accepts_any(value@) && dispatch_ok(value@, w),
                Err(e) => !accepts_any(value@) && e == ParseError::UnknownOperatingSystem,
            },
    {
        let toks = text::tokenize(value);
        if let Ok(w) = windows_11::Windows11::parse(value) {
            return Ok(WindowsClientOS::Windows11(w));
        }
        if let Ok(w) = windows_10::Windows10::parse(value) {
            return Ok(WindowsClientOS::Windows10(w));
        }
        if let Ok(w) = windows_8::Windows8::parse(value) {
            return Ok(WindowsClientOS::Windows8(w));
        }
        if let Ok(w) = windows_7::Windows7::parse(&toks) {
            return Ok(WindowsClientOS::Windows7(w));
        }
        if let Ok(w) = windows_vista::WindowsVista::parse(&toks) {
            return Ok(WindowsClientOS::WindowsVista(w));
        }
        if let Ok(w) = windows_xp::WindowsXP::parse(&toks) {
            return Ok(WindowsClientOS::WindowsXP(w));
        }
        if let Ok(w) = windows_server_1709ff::WindowsServer1709ff::parse(&toks) {
            return Ok(WindowsClientOS::WindowsServer1709ff(w));
        }
        if let Ok(w) = windows_server_2019ff::WindowsServer2019ff::parse(&toks) {
            return Ok(WindowsClientOS::WindowsServer2019ff(w));
        }
        if let Ok(w) = windows_server_2016::WindowsServer2016::parse(&toks) {
            return Ok(WindowsClientOS::WindowsServer2016(w));
        }
        if let Ok(w) = windows_server_2012_r2::WindowsServer2012R2::parse(&toks) {
            return Ok(WindowsClientOS::WindowsServer2012R2(w));
        }
        if let Ok(w) = windows_server_2012::WindowsServer2012::parse(&toks) {
            return Ok(WindowsClientOS::WindowsServer2012(w));
        }
        if let Ok(w) = windows_server_2008_r2::WindowsServer2008R2::parse(&toks) {
            return Ok(WindowsClientOS::WindowsServer2008R2(w));
        }
        if let Ok(w) = windows_server_2008::WindowsServer2008::parse(&toks) {
            return Ok(WindowsClientOS::WindowsServer2008(w));
        }
        if let Ok(w) = windows_server_2003::WindowsServer2003::parse(&toks) {
            return Ok(WindowsClientOS::WindowsServer2003(w));
        }
        if let Ok(w) = windows_2000::Windows2000::parse(&toks) {
            return Ok(WindowsClientOS::Windows2000(w));
        }
        Err(ParseError::UnknownOperatingSystem)
    }

    /// One display line per edition of the resolved record.
    pub fn to_string(&self) -> (r: Vec<String>)
        ensures
            r.deep_view() == os_lines(*self),
    {
        let out = match self {
            WindowsClientOS::Windows11(x) => x.to_string(),
            WindowsClientOS::Windows10(x) => x.to_string(),
            WindowsClientOS::Windows8(x) => x.to_string(),
            WindowsClientOS::Windows7(x) => x.to_string(),
            WindowsClientOS::WindowsVista(x) => x.to_string(),
            WindowsClientOS::WindowsXP(x) => x.to_string(),
            WindowsClientOS::WindowsServer1709ff(x) => x.to_string(),
            WindowsClientOS::WindowsServer2019ff(x) => x.to_string(),
            WindowsClientOS::WindowsServer2016(x) => x.to_string(),
            WindowsClientOS::WindowsServer2012R2(x) => x.to_string(),
            WindowsClientOS::WindowsServer2012(x) => x.to_string(),
            WindowsClientOS::WindowsServer2008R2(x) => x.to_string(),
            WindowsClientOS::WindowsServer2008(x) => x.to_string(),
            WindowsClientOS::WindowsServer2003(x) => x.to_string(),
            WindowsClientOS::Windows2000(x) => x.to_string(),
        };
        proof {
            assert(out.deep_view() =~= os_lines(*self));
        }
        out
    }
}

/// The resolved operating system, as the parsing entry point hands it out.
pub struct Windows(pub WindowsClientOS);

impl Windows {
    pub fn parse(value: &str) -> (r: Result<Windows, ParseError>)
        ensures
            match r {
                Ok(w) => accepts_any(value@) && dispatch_ok(value@, w.0),
                Err(e) => !accepts_any(value@) && e == ParseError::UnknownOperatingSystem,
            },
    {
        match WindowsClientOS::parse(value) {
            Ok(os) => Ok(Windows(os)),
            Err(e) => Err(e),
        }
    }

    /// One display line per edition of the resolved record.
    pub fn to_string(&self) -> (r: Vec<String>)
        ensures
            r.deep_view() == os_lines(self.0),
    {
        self.0.to_string()
    }
}

} // verus!
