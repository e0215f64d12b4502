//! Library-wide laws: properties that hold across the recognizers and the
//! dispatcher, stated once and proved from the contracts in the family
//! modules.

use vstd::prelude::*;

use crate::build_index;
use crate::errors::ParseError;
use crate::text;
use crate::util;
use crate::windows;
use crate::windows::os_lines;
use crate::windows::WindowsClientOS;
use crate::windows::windows_10;
use crate::windows::windows_11;
use crate::windows::windows_2000;
use crate::windows::windows_7;
use crate::windows::windows_server_1709ff;
use crate::windows::windows_server_2003;
use crate::windows::windows_server_2008;
use crate::windows::windows_server_2008_r2;
use crate::windows::windows_server_2012;
use crate::windows::windows_server_2012_r2;
use crate::windows::windows_server_2016;
use crate::windows::windows_server_2019ff;
use crate::windows::windows_vista;
use crate::windows::windows_xp;

verus! {

/// Every resolved record renders at least one display line: a record's
/// edition set is never empty, except for the edition-less combinations,
/// which render a single line without an edition.
pub proof fn lemma_resolution_renders_lines(s: Seq<char>, w: WindowsClientOS)
    requires
        windows::dispatch_ok(s, w),
    ensures
        os_lines(w).len() >= 1,
{
    match w {
        WindowsClientOS::Windows10(x) => {
            match x.editions {
                Some(eds) => {},
                None => {},
            }
        },
        _ => {},
    }
}

/// A structured parse of one of the dual-mode families fills in every
/// edition the selector implies: the set is never partially populated, and
/// it is empty only for the edition-less IoT combination.
pub proof fn lemma_structured_editions_10(toks: Seq<Seq<char>>, w: windows_10::Windows10)
    requires
        windows_10::structured_accepts(toks),
        windows_10::structured_ok(toks, w),
    ensures
        match w.editions {
            Some(eds) => eds.0@.len() > 0,
            None => toks.len() == 3 && toks[2] == "iot"@,
        },
{
}

pub proof fn lemma_structured_editions_11(toks: Seq<Seq<char>>, w: windows_11::Windows11)
    requires
        windows_11::structured_accepts(toks),
        windows_11::structured_ok(toks, w),
    ensures
        w.editions.0@.len() > 0,
{
}

/// The release of a resolved record, for the families that carry one.
pub open spec fn release_of_record(w: WindowsClientOS) -> Option<Seq<char>> {
    match w {
        WindowsClientOS::Windows11(x) => Some(x.release.0@),
        WindowsClientOS::Windows10(x) => Some(x.release.0@),
        WindowsClientOS::Windows8(_) => None,
        WindowsClientOS::Windows7(x) => Some(x.release.name_spec()),
        WindowsClientOS::WindowsVista(x) => Some(x.release.name_spec()),
        WindowsClientOS::WindowsXP(x) => Some(x.release.name_spec()),
        WindowsClientOS::WindowsServer1709ff(x) => match x.release {
            Some(r) => Some(r.0@),
            None => None,
        },
        WindowsClientOS::WindowsServer2019ff(x) => match x.release {
            Some(r) => Some(r.0@),
            None => None,
        },
        WindowsClientOS::WindowsServer2016(x) => match x.release {
            Some(r) => Some(r.0@),
            None => None,
        },
        WindowsClientOS::WindowsServer2012R2(x) => match x.release {
            Some(r) => Some(r.0@),
            None => None,
        },
        WindowsClientOS::WindowsServer2012(x) => match x.release {
            Some(r) => Some(r.0@),
            None => None,
        },
        WindowsClientOS::WindowsServer2008R2(x) => match x.release {
            Some(r) => Some(r.0@),
            None => None,
        },
        WindowsClientOS::WindowsServer2008(x) => match x.release {
            Some(r) => Some(r.0@),
            None => None,
        },
        WindowsClientOS::WindowsServer2003(x) => match x.release {
            Some(r) => Some(r.0@),
            None => None,
        },
        WindowsClientOS::Windows2000(x) => match x.release {
            Some(r) => Some(r.0@),
            None => None,
        },
    }
}

proof fn lines_contain_release_11(x: windows_11::Windows11)
    ensures
        ({
            let w = WindowsClientOS::Windows11(x);
            forall|i: int|
                0 <= i < os_lines(w).len() ==> text::contains_seq(
                    #[trigger] os_lines(w)[i],
                    x.release.0@,
                )
        }),
{
    let w = WindowsClientOS::Windows11(x);
    assert forall|i: int| 0 <= i < os_lines(w).len() implies text::contains_seq(
        #[trigger] os_lines(w)[i],
        x.release.0@,
    ) by {
        let e = x.editions.0@[i];
        let a = x.vendor@ + " "@ + x.product@ + " "@ + e.name_spec() + " "@;
        text::lemma_contains_suffix(a, x.release.0@);
        if !x.service_channel.is_default_spec() {
            text::lemma_contains_extend(a + x.release.0@, " "@, x.release.0@);
            text::lemma_contains_extend(
                a + x.release.0@ + " "@,
                x.service_channel.name_spec(),
                x.release.0@,
            );
        }
    }
}

proof fn lines_contain_release_10(x: windows_10::Windows10)
    ensures
        ({
            let w = WindowsClientOS::Windows10(x);
            forall|i: int|
                0 <= i < os_lines(w).len() ==> text::contains_seq(
                    #[trigger] os_lines(w)[i],
                    x.release.0@,
                )
        }),
{
    let w = WindowsClientOS::Windows10(x);
    match x.editions {
        Some(eds) => {
            assert forall|i: int| 0 <= i < os_lines(w).len() implies text::contains_seq(
                #[trigger] os_lines(w)[i],
                x.release.0@,
            ) by {
                let e = eds.0@[i];
                let a = x.vendor@ + " "@ + x.product@ + " "@ + e.name_spec() + " "@;
                text::lemma_contains_suffix(a, x.release.0@);
                if !x.service_channel.is_default_spec() {
                    text::lemma_contains_extend(a + x.release.0@, " "@, x.release.0@);
                    text::lemma_contains_extend(
                        a + x.release.0@ + " "@,
                        x.service_channel.name_spec(),
                        x.release.0@,
                    );
                }
            }
        },
        None => {
            let a = x.vendor@ + " "@ + x.product@ + " "@;
            text::lemma_contains_suffix(a, x.release.0@);
            if !x.service_channel.is_default_spec() {
                text::lemma_contains_extend(a + x.release.0@, " "@, x.release.0@);
                text::lemma_contains_extend(
                    a + x.release.0@ + " "@,
                    x.service_channel.name_spec(),
                    x.release.0@,
                );
            }
            assert forall|i: int| 0 <= i < os_lines(w).len() implies text::contains_seq(
                #[trigger] os_lines(w)[i],
                x.release.0@,
            ) by {
                assert(os_lines(w)[i] == x.line_no_edition_spec());
            }
        },
    }
}

proof fn lines_contain_release_7(x: windows_7::Windows7)
    ensures
        ({
            let w = WindowsClientOS::Windows7(x);
            forall|i: int|
                0 <= i < os_lines(w).len() ==> text::contains_seq(
                    #[trigger] os_lines(w)[i],
                    x.release.name_spec(),
                )
        }),
{
    let w = WindowsClientOS::Windows7(x);
    assert forall|i: int| 0 <= i < os_lines(w).len() implies text::contains_seq(
        #[trigger] os_lines(w)[i],
        x.release.name_spec(),
    ) by {
        let e = x.editions.0@[i];
        let a = x.vendor@ + " "@ + x.product@ + " "@ + e.name_spec() + " "@;
        text::lemma_contains_suffix(a, x.release.name_spec());
    }
}

proof fn lines_contain_release_vista(x: windows_vista::WindowsVista)
    ensures
        ({
            let w = WindowsClientOS::WindowsVista(x);
            forall|i: int|
                0 <= i < os_lines(w).len() ==> text::contains_seq(
                    #[trigger] os_lines(w)[i],
                    x.release.name_spec(),
                )
        }),
{
    let w = WindowsClientOS::WindowsVista(x);
    assert forall|i: int| 0 <= i < os_lines(w).len() implies text::contains_seq(
        #[trigger] os_lines(w)[i],
        x.release.name_spec(),
    ) by {
        let e = x.editions.0@[i];
        let a = x.vendor@ + " "@ + x.product@ + " "@ + e.name_spec() + " "@;
        text::lemma_contains_suffix(a, x.release.name_spec());
    }
}

proof fn lines_contain_release_xp(x: windows_xp::WindowsXP)
    ensures
        ({
            let w = WindowsClientOS::WindowsXP(x);
            forall|i: int|
                0 <= i < os_lines(w).len() ==> text::contains_seq(
                    #[trigger] os_lines(w)[i],
                    x.release.name_spec(),
                )
        }),
{
    let w = WindowsClientOS::WindowsXP(x);
    assert forall|i: int| 0 <= i < os_lines(w).len() implies text::contains_seq(
        #[trigger] os_lines(w)[i],
        x.release.name_spec(),
    ) by {
        let e = x.editions.0@[i];
        let a = x.vendor@ + " "@ + x.product@ + " "@ + e.name_spec() + " "@;
        text::lemma_contains_suffix(a, x.release.name_spec());
    }
}

proof fn lines_contain_release_1709ff(x: windows_server_1709ff::WindowsServer1709ff)
    ensures
        ({
            let w = WindowsClientOS::WindowsServer1709ff(x);
            match x.release {
                Some(rel) => forall|i: int|
                    0 <= i < os_lines(w).len() ==> text::contains_seq(
                        #[trigger] os_lines(w)[i],
                        rel.0@,
                    ),
                None => true,
            }
        }),
{
    let w = WindowsClientOS::WindowsServer1709ff(x);
    match x.release {
        Some(rel) => {
            assert forall|i: int| 0 <= i < os_lines(w).len() implies text::contains_seq(
                #[trigger] os_lines(w)[i],
                rel.0@,
            ) by {
                let e = x.editions.0@[i];
                let a = x.vendor@ + " "@ + x.product@ + " "@ + e.name_spec() + " "@;
                text::lemma_contains_suffix(a, rel.0@);
            }
        },
        None => {},
    }
}

proof fn lines_contain_release_2019ff(x: windows_server_2019ff::WindowsServer2019ff)
    ensures
        ({
            let w = WindowsClientOS::WindowsServer2019ff(x);
            match x.release {
                Some(rel) => forall|i: int|
                    0 <= i < os_lines(w).len() ==> text::contains_seq(
                        #[trigger] os_lines(w)[i],
                        rel.0@,
                    ),
                None => true,
            }
        }),
{
    let w = WindowsClientOS::WindowsServer2019ff(x);
    match x.release {
        Some(rel) => {
            assert forall|i: int| 0 <= i < os_lines(w).len() implies text::contains_seq(
                #[trigger] os_lines(w)[i],
                rel.0@,
            ) by {
                let e = x.editions.0@[i];
                let a = x.vendor@ + " "@ + x.product@ + " "@ + e.name_spec() + " "@;
                text::lemma_contains_suffix(a, rel.0@);
            }
        },
        None => {},
    }
}

proof fn lines_contain_release_2016(x: windows_server_2016::WindowsServer2016)
    ensures
        ({
            let w = WindowsClientOS::WindowsServer2016(x);
            match x.release {
                Some(rel) => forall|i: int|
                    0 <= i < os_lines(w).len() ==> text::contains_seq(
                        #[trigger] os_lines(w)[i],
                        rel.0@,
                    ),
                None => true,
            }
        }),
{
    let w = WindowsClientOS::WindowsServer2016(x);
    match x.release {
        Some(rel) => {
            assert forall|i: int| 0 <= i < os_lines(w).len() implies text::contains_seq(
                #[trigger] os_lines(w)[i],
                rel.0@,
            ) by {
                let e = x.editions.0@[i];
                let a = x.vendor@ + " "@ + x.product@ + " "@ + e.name_spec() + " "@;
                text::lemma_contains_suffix(a, rel.0@);
            }
        },
        None => {},
    }
}

proof fn lines_contain_release_2012_r2(x: windows_server_2012_r2::WindowsServer2012R2)
    ensures
        ({
            let w = WindowsClientOS::WindowsServer2012R2(x);
            match x.release {
                Some(rel) => forall|i: int|
                    0 <= i < os_lines(w).len() ==> text::contains_seq(
                        #[trigger] os_lines(w)[i],
                        rel.0@,
                    ),
                None => true,
            }
        }),
{
    let w = WindowsClientOS::WindowsServer2012R2(x);
    match x.release {
        Some(rel) => {
            assert forall|i: int| 0 <= i < os_lines(w).len() implies text::contains_seq(
                #[trigger] os_lines(w)[i],
                rel.0@,
            ) by {
                let e = x.editions.0@[i];
                let a = x.vendor@ + " "@ + x.product@ + " "@ + e.name_spec() + " "@;
                text::lemma_contains_suffix(a, rel.0@);
            }
        },
        None => {},
    }
}

proof fn lines_contain_release_2012(x: windows_server_2012::WindowsServer2012)
    ensures
        ({
            let w = WindowsClientOS::WindowsServer2012(x);
            match x.release {
                Some(rel) => forall|i: int|
                    0 <= i < os_lines(w).len() ==> text::contains_seq(
                        #[trigger] os_lines(w)[i],
                        rel.0@,
                    ),
                None => true,
            }
        }),
{
    let w = WindowsClientOS::WindowsServer2012(x);
    match x.release {
        Some(rel) => {
            assert forall|i: int| 0 <= i < os_lines(w).len() implies text::contains_seq(
                #[trigger] os_lines(w)[i],
                rel.0@,
            ) by {
                let e = x.editions.0@[i];
                let a = x.vendor@ + " "@ + x.product@ + " "@ + e.name_spec() + " "@;
                text::lemma_contains_suffix(a, rel.0@);
            }
        },
        None => {},
    }
}

proof fn lines_contain_release_2008_r2(x: windows_server_2008_r2::WindowsServer2008R2)
    ensures
        ({
            let w = WindowsClientOS::WindowsServer2008R2(x);
            match x.release {
                Some(rel) => forall|i: int|
                    0 <= i < os_lines(w).len() ==> text::contains_seq(
                        #[trigger] os_lines(w)[i],
                        rel.0@,
                    ),
                None => true,
            }
        }),
{
    let w = WindowsClientOS::WindowsServer2008R2(x);
    match x.release {
        Some(rel) => {
            assert forall|i: int| 0 <= i < os_lines(w).len() implies text::contains_seq(
                #[trigger] os_lines(w)[i],
                rel.0@,
            ) by {
                let e = x.editions.0@[i];
                let a = x.vendor@ + " "@ + x.product@ + " "@ + e.name_spec() + " "@;
                text::lemma_contains_suffix(a, rel.0@);
            }
        },
        None => {},
    }
}

proof fn lines_contain_release_2008(x: windows_server_2008::WindowsServer2008)
    ensures
        ({
            let w = WindowsClientOS::WindowsServer2008(x);
            match x.release {
                Some(rel) => forall|i: int|
                    0 <= i < os_lines(w).len() ==> text::contains_seq(
                        #[trigger] os_lines(w)[i],
                        rel.0@,
                    ),
                None => true,
            }
        }),
{
    let w = WindowsClientOS::WindowsServer2008(x);
    match x.release {
        Some(rel) => {
            assert forall|i: int| 0 <= i < os_lines(w).len() implies text::contains_seq(
                #[trigger] os_lines(w)[i],
                rel.0@,
            ) by {
                let e = x.editions.0@[i];
                let a = x.vendor@ + " "@ + x.product@ + " "@ + e.name_spec() + " "@;
                text::lemma_contains_suffix(a, rel.0@);
            }
        },
        None => {},
    }
}

proof fn lines_contain_release_2003(x: windows_server_2003::WindowsServer2003)
    ensures
        ({
            let w = WindowsClientOS::WindowsServer2003(x);
            match x.release {
                Some(rel) => forall|i: int|
                    0 <= i < os_lines(w).len() ==> text::contains_seq(
                        #[trigger] os_lines(w)[i],
                        rel.0@,
                    ),
                None => true,
            }
        }),
{
    let w = WindowsClientOS::WindowsServer2003(x);
    match x.release {
        Some(rel) => {
            assert forall|i: int| 0 <= i < os_lines(w).len() implies text::contains_seq(
                #[trigger] os_lines(w)[i],
                rel.0@,
            ) by {
                let e = x.editions.0@[i];
                let a = x.vendor@ + " "@ + x.product@ + " "@ + e.name_spec() + " "@;
                text::lemma_contains_suffix(a, rel.0@);
            }
        },
        None => {},
    }
}

proof fn lines_contain_release_2000(x: windows_2000::Windows2000)
    ensures
        ({
            let w = WindowsClientOS::Windows2000(x);
            match x.release {
                Some(rel) => forall|i: int|
                    0 <= i < os_lines(w).len() ==> text::contains_seq(
                        #[trigger] os_lines(w)[i],
                        rel.0@,
                    ),
                None => true,
            }
        }),
{
    let w = WindowsClientOS::Windows2000(x);
    match x.release {
        Some(rel) => {
            assert forall|i: int| 0 <= i < os_lines(w).len() implies text::contains_seq(
                #[trigger] os_lines(w)[i],
                rel.0@,
            ) by {
                let e = x.editions.0@[i];
                let a = x.vendor@ + " "@ + x.product@ + " "@ + e.name_spec() + " "@;
                text::lemma_contains_suffix(a, rel.0@);
            }
        },
        None => {},
    }
}

/// Round trip: when a record carries a release label, every rendered
/// display line includes it verbatim. Together with the dispatch relation,
/// which pins each release field to the case-normalized release token,
/// this says resolving a structured label and rendering it reproduces the
/// release label, modulo case normalization.
pub proof fn lemma_lines_contain_release(w: WindowsClientOS)
    ensures
        match release_of_record(w) {
            Some(rel) => forall|i: int|
                0 <= i < os_lines(w).len() ==> text::contains_seq(#[trigger] os_lines(w)[i], rel),
            None => true,
        },
{
    match w {
        WindowsClientOS::Windows11(x) => lines_contain_release_11(x),
        WindowsClientOS::Windows10(x) => lines_contain_release_10(x),
        WindowsClientOS::Windows8(_) => {},
        WindowsClientOS::Windows7(x) => lines_contain_release_7(x),
        WindowsClientOS::WindowsVista(x) => lines_contain_release_vista(x),
        WindowsClientOS::WindowsXP(x) => lines_contain_release_xp(x),
        WindowsClientOS::WindowsServer1709ff(x) => lines_contain_release_1709ff(x),
        WindowsClientOS::WindowsServer2019ff(x) => lines_contain_release_2019ff(x),
        WindowsClientOS::WindowsServer2016(x) => lines_contain_release_2016(x),
        WindowsClientOS::WindowsServer2012R2(x) => lines_contain_release_2012_r2(x),
        WindowsClientOS::WindowsServer2012(x) => lines_contain_release_2012(x),
        WindowsClientOS::WindowsServer2008R2(x) => lines_contain_release_2008_r2(x),
        WindowsClientOS::WindowsServer2008(x) => lines_contain_release_2008(x),
        WindowsClientOS::WindowsServer2003(x) => lines_contain_release_2003(x),
        WindowsClientOS::Windows2000(x) => lines_contain_release_2000(x),
    }
}

/// Precedence: the two-token server discriminator `2008-r2` is also a
/// valid label for the plain 2008 family (which then reads `r2` as its
/// release token), so the grammars overlap. By construction of the
/// dispatch order the newer, more specific family wins: whenever the
/// R2 recognizer accepts a structured label, the dispatcher's record is
/// the R2 one.
pub proof fn lemma_precedence_2008_r2_wins(s: Seq<char>, w: WindowsClientOS)
    requires
        text::is_structured(s),
        windows::accepts_2008_r2(s),
        windows::dispatch_ok(s, w),
    ensures
        w is WindowsServer2008R2,
        text::split_dashes(s).len() == 2 ==> windows::accepts_2008(s),
{
    let toks = text::split_dashes(s);
    reveal_strlit("2008");
    reveal_strlit("2016");
    reveal_strlit("2012");
    reveal_strlit("11");
    reveal_strlit("10");
    reveal_strlit("8");
    reveal_strlit("8.1");
    reveal_strlit("7");
    reveal_strlit("6");
    reveal_strlit("5");
    reveal_strlit("r2");
    reveal_strlit("ac");
    reveal_strlit("sac");
    assert(toks[0] == "2008"@ && toks[1] == "r2"@);
    assert(!windows::accepts_11(s)) by {
        assert("2008"@.len() == 4 && "11"@.len() == 2);
    }
    assert(!windows::accepts_10(s)) by {
        assert("2008"@.len() == 4 && "10"@.len() == 2);
    }
    assert(!windows::accepts_8(s)) by {
        text::lemma_split_len_dash(s);
        let i = choose|i: int| 0 <= i < s.len() && s[i] == '-';
        if s == "8"@ {
            assert(s.len() == 1 && s[0] == '8');
        }
        if s == "8.1"@ {
            assert(s[1] == '.');
            assert(text::forbidden_char(s[1]));
        }
    }
    assert(!windows::accepts_7(s)) by {
        assert("2008"@.len() == 4 && "7"@.len() == 1);
    }
    assert(!windows::accepts_vista(s)) by {
        assert("2008"@.len() == 4 && "6"@.len() == 1);
    }
    assert(!windows::accepts_xp(s)) by {
        assert("2008"@.len() == 4 && "5"@.len() == 1);
    }
    assert(!windows::accepts_1709ff(s)) by {
        assert("r2"@[0] == 'r' && "ac"@[0] == 'a');
        assert("r2"@.len() == 2 && "sac"@.len() == 3);
    }
    assert(!windows::accepts_2019ff(s));
    assert(!windows::accepts_2016(s)) by {
        assert("2008"@[2] == '0' && "2016"@[2] == '1');
    }
    assert(!windows::accepts_2012_r2(s)) by {
        assert("2008"@[2] == '0' && "2012"@[2] == '1');
    }
    assert(!windows::accepts_2012(s)) by {
        assert("2008"@[2] == '0' && "2012"@[2] == '1');
    }
}

/// The same precedence law at the other ambiguous pair: `2012-r2` is a
/// valid label for the 2012 R2 family and for the plain 2012 family, and
/// the newer family wins.
pub proof fn lemma_precedence_2012_r2_wins(s: Seq<char>, w: WindowsClientOS)
    requires
        text::is_structured(s),
        windows::accepts_2012_r2(s),
        windows::dispatch_ok(s, w),
    ensures
        w is WindowsServer2012R2,
        text::split_dashes(s).len() == 2 ==> windows::accepts_2012(s),
{
    let toks = text::split_dashes(s);
    reveal_strlit("2012");
    reveal_strlit("2016");
    reveal_strlit("11");
    reveal_strlit("10");
    reveal_strlit("8");
    reveal_strlit("8.1");
    reveal_strlit("7");
    reveal_strlit("6");
    reveal_strlit("5");
    reveal_strlit("r2");
    reveal_strlit("ac");
    reveal_strlit("sac");
    assert(toks[0] == "2012"@ && toks[1] == "r2"@);
    assert(!windows::accepts_11(s)) by {
        assert("2012"@.len() == 4 && "11"@.len() == 2);
    }
    assert(!windows::accepts_10(s)) by {
        assert("2012"@.len() == 4 && "10"@.len() == 2);
    }
    assert(!windows::accepts_8(s)) by {
        text::lemma_split_len_dash(s);
        let i = choose|i: int| 0 <= i < s.len() && s[i] == '-';
        if s == "8"@ {
            assert(s.len() == 1 && s[0] == '8');
        }
        if s == "8.1"@ {
            assert(s[1] == '.');
            assert(text::forbidden_char(s[1]));
        }
    }
    assert(!windows::accepts_7(s)) by {
        assert("2012"@.len() == 4 && "7"@.len() == 1);
    }
    assert(!windows::accepts_vista(s)) by {
        assert("2012"@.len() == 4 && "6"@.len() == 1);
    }
    assert(!windows::accepts_xp(s)) by {
        assert("2012"@.len() == 4 && "5"@.len() == 1);
    }
    assert(!windows::accepts_1709ff(s)) by {
        assert("r2"@[0] == 'r' && "ac"@[0] == 'a');
        assert("r2"@.len() == 2 && "sac"@.len() == 3);
    }
    assert(!windows::accepts_2019ff(s));
    assert(!windows::accepts_2016(s)) by {
        assert("2012"@[3] == '2' && "2016"@[3] == '6');
    }
}

/// Build-Index totality at the free-text release extraction of Windows 10:
/// a five-digit run that the source correspondence table lists always
/// resolves to a release label, and one the table does not list fails with
/// the explicit unknown-build reason, never by silently defaulting.
pub proof fn lemma_build_resolution_10(s: Seq<char>)
    requires
        util::first_digit_run(s, 0, 5) < s.len(),
    ensures
        ({
            let b = s.subrange(
                util::first_digit_run(s, 0, 5),
                util::first_digit_run(s, 0, 5) + 5,
            );
            let fwd = build_index::windows_10_correspondence();
            &&& (exists|i: int| 0 <= i < fwd.len() && #[trigger] fwd[i].1.contains(b))
                ==> windows_10::ft_release(s) is Ok
            &&& (forall|i: int| 0 <= i < fwd.len() ==> !#[trigger] fwd[i].1.contains(b))
                ==> windows_10::ft_release(s) == Err::<Seq<char>, ParseError>(
                ParseError::UnknownBuild,
            )
        }),
{
    let p = util::first_digit_run(s, 0, 5);
    let b = s.subrange(p, p + 5);
    let fwd = build_index::windows_10_correspondence();
    if exists|i: int| 0 <= i < fwd.len() && #[trigger] fwd[i].1.contains(b) {
        let i = choose|i: int| 0 <= i < fwd.len() && #[trigger] fwd[i].1.contains(b);
        build_index::lemma_inverted_total(fwd, i, b);
    }
    if forall|i: int| 0 <= i < fwd.len() ==> !#[trigger] fwd[i].1.contains(b) {
        build_index::lemma_inverted_complete(fwd, b);
    }
}

/// Build-Index totality at the free-text release extraction of Windows 11.
pub proof fn lemma_build_resolution_11(s: Seq<char>)
    requires
        util::first_digit_run(s, 0, 5) < s.len(),
    ensures
        ({
            let b = s.subrange(
                util::first_digit_run(s, 0, 5),
                util::first_digit_run(s, 0, 5) + 5,
            );
            let fwd = build_index::windows_11_correspondence();
            &&& (exists|i: int| 0 <= i < fwd.len() && #[trigger] fwd[i].1.contains(b))
                ==> windows_11::ft_release(s) is Ok
            &&& (forall|i: int| 0 <= i < fwd.len() ==> !#[trigger] fwd[i].1.contains(b))
                ==> windows_11::ft_release(s) == Err::<Seq<char>, ParseError>(
                ParseError::UnknownBuild,
            )
        }),
{
    let p = util::first_digit_run(s, 0, 5);
    let b = s.subrange(p, p + 5);
    let fwd = build_index::windows_11_correspondence();
    if exists|i: int| 0 <= i < fwd.len() && #[trigger] fwd[i].1.contains(b) {
        let i = choose|i: int| 0 <= i < fwd.len() && #[trigger] fwd[i].1.contains(b);
        build_index::lemma_inverted_total(fwd, i, b);
    }
    if forall|i: int| 0 <= i < fwd.len() ==> !#[trigger] fwd[i].1.contains(b) {
        build_index::lemma_inverted_complete(fwd, b);
    }
}

/// The structured/free-text decision is one predicate of the input string
/// alone: both dual-mode recognizers branch on the same classifier, so the
/// decision cannot depend on the dispatch order.
pub proof fn lemma_classifier_shared(s: Seq<char>)
    ensures
        windows_10::accepts(s) == if text::is_structured(s) {
            windows_10::structured_accepts(text::split_dashes(s))
        } else {
            windows_10::ft_accepts(s)
        },
        windows_11::accepts(s) == if text::is_structured(s) {
            windows_11::structured_accepts(text::split_dashes(s))
        } else {
            windows_11::ft_accepts(s)
        },
{
}

} // verus!
