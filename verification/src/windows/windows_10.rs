//! Windows 10: the first dual-mode family. Structured labels carry the
//! discriminator `10`, a release token, and optional edition-group and
//! channel selectors; free-text labels are searched for an edition keyword,
//! a build number or release label, and a channel keyword.

use vstd::prelude::*;
use vstd::string::StringExecFns;

use crate::build_index;
use crate::build_index::BuildIndex;
use crate::errors::ParseError;
use crate::label::EndOfLifeLabel;
use crate::label::GenericLabel;
use crate::text;
use crate::util;

verus! {

pub struct Windows10 {
    pub vendor: String,
    pub product: String,
    pub release: Release,
    pub editions: Option<Editions>,
    pub service_channel: ServiceChannel,
}

pub struct Release(pub String);

impl Release {
    pub fn from_token(t: &str) -> (r: Release)
        ensures
            r.0@ == text::upper_seq(t@),
    {
        Release(text::to_upper(t))
    }

    /// A release label ending in the half-year suffix `H1` belongs to the
    /// semi-annual cadence.
    pub fn is_semi_annual(&self) -> (r: bool)
        ensures
            r == text::ends_with_seq(self.0@, "H1"@),
    {
        text::str_ends_with(self.0.as_str(), "H1")
    }

    /// Releases up to and including 1607 predate the renaming of the
    /// long-term channel.
    pub fn up_to_1607(&self) -> (r: bool)
        ensures
            r == text::lex_le(self.0@, "1607"@),
    {
        text::str_lex_le(self.0.as_str(), "1607")
    }

    pub fn to_string(&self) -> (r: String)
        ensures
            r@ == self.0@,
    {
        self.0.clone()
    }
}

#[derive(Clone, Copy, Debug, PartialEq, Eq, Structural)]
pub enum Edition {
    Education,
    Enterprise,
    EnterpriseIoT,
    Home,
    Pro,
    ProEducation,
    ProForWorkstations,
}

impl Edition {
    pub open spec fn name_spec(self) -> Seq<char> {
        match self {
            Edition::Education => "Education"@,
            Edition::Enterprise => "Enterprise"@,
            Edition::EnterpriseIoT => "Enterprise IoT"@,
            Edition::Home => "Home"@,
            Edition::Pro => "Pro"@,
            Edition::ProEducation => "Pro Education"@,
            Edition::ProForWorkstations => "Pro for Workstations"@,
        }
    }

    pub fn to_string(&self) -> (r: String)
        ensures
            r@ == self.name_spec(),
    {
        match *self {
            Edition::Education => String::from_str("Education"),
            Edition::Enterprise => String::from_str("Enterprise"),
            Edition::EnterpriseIoT => String::from_str("Enterprise IoT"),
            Edition::Home => String::from_str("Home"),
            Edition::Pro => String::from_str("Pro"),
            Edition::ProEducation => String::from_str("Pro Education"),
            Edition::ProForWorkstations => String::from_str("Pro for Workstations"),
        }
    }
}

pub struct Editions(pub Vec<Edition>);

/// The education/enterprise tier.
pub open spec fn e_editions() -> Seq<Edition> {
    seq![Edition::Education, Edition::Enterprise, Edition::EnterpriseIoT]
}

/// The consumer/workstation tier.
pub open spec fn w_editions() -> Seq<Edition> {
    seq![Edition::Home, Edition::Pro, Edition::ProEducation, Edition::ProForWorkstations]
}

/// Every edition, in tier order.
pub open spec fn all_editions() -> Seq<Edition> {
    e_editions() + w_editions()
}

/// The edition set an edition-group selector token names.
pub open spec fn selector_editions(t: Seq<char>) -> Option<Seq<Edition>> {
    if t == "e"@ {
        Some(e_editions())
    } else if t == "w"@ {
        Some(w_editions())
    } else {
        None
    }
}

impl Editions {
    pub fn all() -> (r: Editions)
        ensures
            r.0@ == all_editions(),
    {
        let mut e = Editions::all_e();
        let w = Editions::all_w();
        let ghost evs = e.0@;
        let mut i: usize = 0;
        while i < w.0.len()
            invariant
                i <= w.0@.len(),
                w.0@ == w_editions(),
                e.0@ =~= evs + w.0@.take(i as int),
            decreases w.0@.len() - i,
        {
            e.0.push(w.0[i]);
            proof {
                assert(w.0@.take(i + 1) =~= w.0@.take(i as int).push(w.0@[i as int]));
            }
            i = i + 1;
        }
        proof {
            assert(w.0@.take(w.0@.len() as int) =~= w.0@);
            assert(e.0@ =~= all_editions());
        }
        e
    }

    pub fn all_e() -> (r: Editions)
        ensures
            r.0@ == e_editions(),
    {
        let v = vec![Edition::Education, Edition::Enterprise, Edition::EnterpriseIoT];
        proof {
            assert(v@ =~= e_editions());
        }
        Editions(v)
    }

    pub fn all_w() -> (r: Editions)
        ensures
            r.0@ == w_editions(),
    {
        let v = vec![
            Edition::Home,
            Edition::Pro,
            Edition::ProEducation,
            Edition::ProForWorkstations,
        ];
        proof {
            assert(v@ =~= w_editions());
        }
        Editions(v)
    }

    /// The editions an edition-group selector names, or nothing for an
    /// unrecognized selector.
    pub fn from_selector(t: &str) -> (r: Option<Editions>)
        ensures
            match r {
                Some(eds) => selector_editions(t@) == Some(eds.0@),
                None => selector_editions(t@) is None,
            },
    {
        if text::str_eq(t, "e") {
            Some(Editions::all_e())
        } else if text::str_eq(t, "w") {
            Some(Editions::all_w())
        } else {
            None
        }
    }

    pub fn contains(&self, edition: Edition) -> (r: bool)
        ensures
            r == self.0@.contains(edition),
    {
        let mut i: usize = 0;
        while i < self.0.len()
            invariant
                i <= self.0@.len(),
                forall|k: int| 0 <= k < i ==> self.0@[k] != edition,
            decreases self.0@.len() - i,
        {
            if self.0[i] == edition {
                return true;
            }
            i = i + 1;
        }
        false
    }

    pub fn len(&self) -> (r: usize)
        ensures
            r == self.0@.len(),
    {
        self.0.len()
    }
}

#[derive(Clone, Copy, Debug, PartialEq, Eq, Structural)]
pub enum ServiceChannel {
    GAC,
    LTSB,
    LTSC,
    SAC,
}

impl ServiceChannel {
    pub open spec fn name_spec(self) -> Seq<char> {
        match self {
            ServiceChannel::GAC => "GAC"@,
            ServiceChannel::LTSB => "LTSB"@,
            ServiceChannel::LTSC => "LTSC"@,
            ServiceChannel::SAC => "SAC"@,
        }
    }

    pub open spec fn is_default_spec(self) -> bool {
        match self {
            ServiceChannel::GAC => true,
            ServiceChannel::LTSB => false,
            ServiceChannel::LTSC => false,
            ServiceChannel::SAC => true,
        }
    }

    pub open spec fn is_lts_spec(self) -> bool {
        match self {
            ServiceChannel::GAC => false,
            ServiceChannel::LTSB => true,
            ServiceChannel::LTSC => true,
            ServiceChannel::SAC => false,
        }
    }

    /// Default channels are left out of the rendered line.
    pub fn is_default(&self) -> (r: bool)
        ensures
            r == self.is_default_spec(),
    {
        match *self {
            ServiceChannel::GAC => true,
            ServiceChannel::LTSB => false,
            ServiceChannel::LTSC => false,
            ServiceChannel::SAC => true,
        }
    }

    pub fn is_lts(&self) -> (r: bool)
        ensures
            r == self.is_lts_spec(),
    {
        match *self {
            ServiceChannel::GAC => false,
            ServiceChannel::LTSB => true,
            ServiceChannel::LTSC => true,
            ServiceChannel::SAC => false,
        }
    }

    pub fn to_string(&self) -> (r: String)
        ensures
            r@ == self.name_spec(),
    {
        match *self {
            ServiceChannel::GAC => String::from_str("GAC"),
            ServiceChannel::LTSB => String::from_str("LTSB"),
            ServiceChannel::LTSC => String::from_str("LTSC"),
            ServiceChannel::SAC => String::from_str("SAC"),
        }
    }

    /// The channel an explicit channel selector token asks for.
    pub open spec fn from_token_spec(t: Seq<char>) -> ServiceChannel {
        if t == "lts"@ {
            ServiceChannel::LTSC
        } else {
            ServiceChannel::GAC
        }
    }

    pub fn from_token(t: &str) -> (r: ServiceChannel)
        ensures
            r == ServiceChannel::from_token_spec(t@),
    {
        if text::str_eq(t, "lts") {
            ServiceChannel::LTSC
        } else {
            ServiceChannel::GAC
        }
    }

    /// Inference from the release alone: a half-year release implies the
    /// semi-annual channel, everything else falls back to the default.
    pub open spec fn inferred_spec(rel: Seq<char>) -> ServiceChannel {
        if text::ends_with_seq(rel, "H1"@) {
            ServiceChannel::SAC
        } else {
            ServiceChannel::GAC
        }
    }

    /// Reconciliation of a release with an explicitly requested channel: a
    /// semi-annual release forces the semi-annual channel; a release up to
    /// the 1607 cutoff keeps the older long-term name when long-term
    /// servicing was asked for; everything else gets the newer long-term
    /// name. This never fails.
    pub open spec fn reconciled_spec(rel: Seq<char>, c: ServiceChannel) -> ServiceChannel {
        if text::ends_with_seq(rel, "H1"@) {
            ServiceChannel::SAC
        } else if text::lex_le(rel, "1607"@) && c.is_lts_spec() {
            ServiceChannel::LTSB
        } else {
            ServiceChannel::LTSC
        }
    }

    pub fn reconcile(release: &Release, c: &ServiceChannel) -> (r: ServiceChannel)
        ensures
            r == ServiceChannel::reconciled_spec(release.0@, *c),
    {
        if release.is_semi_annual() {
            ServiceChannel::SAC
        } else if release.up_to_1607() && c.is_lts() {
            ServiceChannel::LTSB
        } else {
            ServiceChannel::LTSC
        }
    }
}

/// The structured grammar: discriminator `10`, a release token, then an
/// optional edition-group selector and an optional channel selector.
pub open spec fn structured_accepts(toks: Seq<Seq<char>>) -> bool {
    &&& toks[0] == "10"@
    &&& 2 <= toks.len() <= 4
    &&& (toks.len() == 3 ==> (toks[2] == "e"@ || toks[2] == "iot"@ || toks[2] == "w"@))
    &&& (toks.len() == 4 ==> selector_editions(toks[2]) is Some)
}

pub open spec fn structured_reject(toks: Seq<Seq<char>>) -> ParseError {
    if toks[0] != "10"@ {
        ParseError::NotThisFamily
    } else if toks.len() < 2 || toks.len() > 4 {
        ParseError::MalformedLabel
    } else {
        ParseError::UnrecognizedField
    }
}

/// What a structured parse yields, field by field.
pub open spec fn structured_ok(toks: Seq<Seq<char>>, w: Windows10) -> bool {
    let rel = text::upper_seq(toks[1]);
    &&& w.vendor@ == "Microsoft"@
    &&& w.release.0@ == rel
    &&& if toks.len() == 2 {
        &&& w.product@ == "Windows 10"@
        &&& w.editions matches Some(eds) && eds.0@ == all_editions()
        &&& w.service_channel == ServiceChannel::inferred_spec(rel)
    } else if toks.len() == 3 {
        if toks[2] == "iot"@ {
            &&& w.product@ == "Windows 10 IoT Core"@
            &&& w.editions is None
            &&& w.service_channel == ServiceChannel::GAC
        } else {
            &&& w.product@ == "Windows 10"@
            &&& w.editions matches Some(eds) && selector_editions(toks[2]) == Some(eds.0@)
            &&& w.service_channel == ServiceChannel::GAC
        }
    } else {
        &&& w.product@ == "Windows 10"@
        &&& w.editions matches Some(eds) && selector_editions(toks[2]) == Some(eds.0@)
        &&& w.service_channel == ServiceChannel::reconciled_spec(
            rel,
            ServiceChannel::from_token_spec(toks[3]),
        )
    }
}

/// Free text: the first edition whose keyword list matches, checked in a
/// fixed order with the longer phrases ahead of their substrings.
pub open spec fn ft_edition(s: Seq<char>) -> Option<Edition> {
    if util::any_word_occurs(s, seq!["Education Edition"@, "Education"@]) {
        Some(Edition::Education)
    } else if util::any_word_occurs(s, seq!["Enterprise Edition"@, "Enterprise"@]) {
        Some(Edition::Enterprise)
    } else if util::any_word_occurs(s, seq!["Home Edition"@, "Home"@]) {
        Some(Edition::Home)
    } else if util::any_word_occurs(s, seq!["Professional Edition"@, "Professional"@, "Pro"@]) {
        Some(Edition::Pro)
    } else {
        None
    }
}

/// Free text: a five-digit build number resolved through the reverse index
/// when one is present, otherwise the first release label of the family
/// vocabulary that occurs whole-word.
pub open spec fn ft_release(s: Seq<char>) -> Result<Seq<char>, ParseError> {
    let fwd = build_index::windows_10_correspondence();
    let p = util::first_digit_run(s, 0, 5);
    if p < s.len() {
        match build_index::entries_lookup(build_index::inverted(fwd), s.subrange(p, p + 5)) {
            Some(rel) => Ok(text::upper_seq(rel)),
            None => Err(ParseError::UnknownBuild),
        }
    } else {
        let labels = build_index::labels_of(fwd);
        let q = util::first_word_index(s, labels, 0);
        if q < labels.len() {
            Ok(text::upper_seq(labels[q]))
        } else {
            Err(ParseError::UnknownRelease)
        }
    }
}

/// Free text: a channel keyword when present; inference failure is not
/// fatal and falls back to the default channel.
pub open spec fn ft_channel(s: Seq<char>) -> ServiceChannel {
    if util::any_word_occurs(s, seq!["General Availability"@, "GA"@]) {
        ServiceChannel::GAC
    } else if util::any_word_occurs(s, seq!["LTSC"@]) {
        ServiceChannel::LTSC
    } else {
        ServiceChannel::GAC
    }
}

pub open spec fn ft_accepts(s: Seq<char>) -> bool {
    ft_edition(s) is Some && ft_release(s) is Ok
}

pub open spec fn ft_reject(s: Seq<char>) -> ParseError {
    if ft_edition(s) is None {
        ParseError::UnknownEdition
    } else {
        ft_release(s)->Err_0
    }
}

pub open spec fn ft_ok(s: Seq<char>, w: Windows10) -> bool {
    &&& w.vendor@ == "Microsoft"@
    &&& w.product@ == "Windows 10"@
    &&& ft_release(s) matches Ok(rel) && w.release.0@ == rel
    &&& w.editions matches Some(eds) && ft_edition(s) matches Some(e) && eds.0@ == seq![e]
    &&& w.service_channel == ft_channel(s)
}

/// The whole recognizer: the classifier picks the token view, and the view
/// picks the grammar.
pub open spec fn accepts(s: Seq<char>) -> bool {
    if text::is_structured(s) {
        structured_accepts(text::split_dashes(s))
    } else {
        ft_accepts(s)
    }
}

pub open spec fn reject_reason(s: Seq<char>) -> ParseError {
    if text::is_structured(s) {
        structured_reject(text::split_dashes(s))
    } else {
        ft_reject(s)
    }
}

pub open spec fn parse_ok(s: Seq<char>, w: Windows10) -> bool {
    if text::is_structured(s) {
        structured_ok(text::split_dashes(s), w)
    } else {
        ft_ok(s, w)
    }
}

impl Windows10 {
    /// A record with the family defaults: no edition concept until one is
    /// chosen, and the given channel.
    pub fn build(release: Release, service_channel: ServiceChannel) -> (r: Windows10)
        ensures
            r.vendor@ == "Microsoft"@,
            r.product@ == "Windows 10"@,
            r.release == release,
            r.editions is None,
            r.service_channel == service_channel,
    {
        Windows10 {
            vendor: String::from_str("Microsoft"),
            product: String::from_str("Windows 10"),
            release,
            editions: None,
            service_channel,
        }
    }

    /// The same record under another product name.
    pub fn product(self, product: &str) -> (r: Windows10)
        ensures
            r.product@ == product@,
            r.vendor == self.vendor,
            r.release == self.release,
            r.editions == self.editions,
            r.service_channel == self.service_channel,
    {
        Windows10 { product: String::from_str(product), ..self }
    }

    /// The same record with its edition set chosen.
    pub fn editions(self, editions: Editions) -> (r: Windows10)
        ensures
            r.editions == Some(editions),
            r.vendor == self.vendor,
            r.product == self.product,
            r.release == self.release,
            r.service_channel == self.service_channel,
    {
        Windows10 { editions: Some(editions), ..self }
    }

    pub fn parse(value: &str) -> (r: Result<Windows10, ParseError>)
        ensures
            match r {
                Ok(w) => accepts(value@) && parse_ok(value@, w),
                Err(e) => !accepts(value@) && e == reject_reason(value@),
            },
    {
        match EndOfLifeLabel::parse(value) {
            Ok(label) => Windows10::parse_structured(&label),
            Err(_) => Windows10::parse_free_text(&GenericLabel::new(value)),
        }
    }

    pub fn parse_structured(label: &EndOfLifeLabel) -> (r: Result<Windows10, ParseError>)
        requires
            label@.len() >= 1,
        ensures
            match r {
                Ok(w) => structured_accepts(label@) && structured_ok(label@, w),
                Err(e) => !structured_accepts(label@) && e == structured_reject(label@),
            },
    {
        let n = label.len();
        let first = label.get(0).unwrap();
        if !text::str_eq(first.as_str(), "10") {
            return Err(ParseError::NotThisFamily);
        }
        if n < 2 || n > 4 {
            return Err(ParseError::MalformedLabel);
        }
        let release = Release::from_token(label.get(1).unwrap().as_str());
        if n == 2 {
            let service_channel = if release.is_semi_annual() {
                ServiceChannel::SAC
            } else {
                ServiceChannel::GAC
            };
            return Ok(
                Windows10 {
                    vendor: String::from_str("Microsoft"),
                    product: String::from_str("Windows 10"),
                    release,
                    editions: Some(Editions::all()),
                    service_channel,
                },
            );
        }
        if n == 3 {
            let sel = label.get(2).unwrap();
            if text::str_eq(sel.as_str(), "e") {
                proof {
                    reveal_strlit("e");
                    reveal_strlit("iot");
                    assert("e"@.len() == 1);
                    assert("iot"@.len() == 3);
                    assert("e"@ != "iot"@);
                }
                return Ok(
                    Windows10 {
                        vendor: String::from_str("Microsoft"),
                        product: String::from_str("Windows 10"),
                        release,
                        editions: Some(Editions::all_e()),
                        service_channel: ServiceChannel::GAC,
                    },
                );
            }
            if text::str_eq(sel.as_str(), "iot") {
                return Ok(
                    Windows10 {
                        vendor: String::from_str("Microsoft"),
                        product: String::from_str("Windows 10 IoT Core"),
                        release,
                        editions: None,
                        service_channel: ServiceChannel::GAC,
                    },
                );
            }
            if text::str_eq(sel.as_str(), "w") {
                proof {
                    reveal_strlit("w");
                    reveal_strlit("iot");
                }
                return Ok(
                    Windows10 {
                        vendor: String::from_str("Microsoft"),
                        product: String::from_str("Windows 10"),
                        release,
                        editions: Some(Editions::all_w()),
                        service_channel: ServiceChannel::GAC,
                    },
                );
            }
            return Err(ParseError::UnrecognizedField);
        }
        let editions = match Editions::from_selector(label.get(2).unwrap().as_str()) {
            Some(eds) => eds,
            None => {
                return Err(ParseError::UnrecognizedField);
            },
        };
        let supplied = ServiceChannel::from_token(label.get(3).unwrap().as_str());
        let service_channel = ServiceChannel::reconcile(&release, &supplied);
        Ok(
            Windows10 {
                vendor: String::from_str("Microsoft"),
                product: String::from_str("Windows 10"),
                release,
                editions: Some(editions),
                service_channel,
            },
        )
    }

    pub fn parse_free_text(label: &GenericLabel) -> (r: Result<Windows10, ParseError>)
        ensures
            match r {
                Ok(w) => ft_accepts(label@) && ft_ok(label@, w),
                Err(e) => !ft_accepts(label@) && e == ft_reject(label@),
            },
    {
        let value = label.as_str();
        let ws_education: &[&str] = &["Education Edition", "Education"];
        let ws_enterprise: &[&str] = &["Enterprise Edition", "Enterprise"];
        let ws_home: &[&str] = &["Home Edition", "Home"];
        let ws_pro: &[&str] = &["Professional Edition", "Professional", "Pro"];
        proof {
            assert(ws_education.deep_view() =~= seq!["Education Edition"@, "Education"@]);
            assert(ws_enterprise.deep_view() =~= seq!["Enterprise Edition"@, "Enterprise"@]);
            assert(ws_home.deep_view() =~= seq!["Home Edition"@, "Home"@]);
            assert(ws_pro.deep_view() =~= seq!["Professional Edition"@, "Professional"@, "Pro"@]);
        }
        let edition = if util::contains_any_word(value, ws_education) {
            Edition::Education
        } else if util::contains_any_word(value, ws_enterprise) {
            Edition::Enterprise
        } else if util::contains_any_word(value, ws_home) {
            Edition::Home
        } else if util::contains_any_word(value, ws_pro) {
            Edition::Pro
        } else {
            return Err(ParseError::UnknownEdition);
        };
        let fwd = build_index::windows_10_release_builds();
        let release = match util::find_number_with_digits(value, 5) {
            Some(build) => {
                let index = BuildIndex::from_correspondence(&fwd);
                match index.resolve(build.as_str()) {
                    Ok(rel) => Release::from_token(rel.as_str()),
                    Err(e) => {
                        return Err(e);
                    },
                }
            },
            None => {
                let labels = build_index::release_labels(&fwd);
                match util::identify_release(value, &labels) {
                    Some(l) => Release::from_token(l.as_str()),
                    None => {
                        return Err(ParseError::UnknownRelease);
                    },
                }
            },
        };
        let ws_ga: &[&str] = &["General Availability", "GA"];
        let ws_ltsc: &[&str] = &["LTSC"];
        proof {
            assert(ws_ga.deep_view() =~= seq!["General Availability"@, "GA"@]);
            assert(ws_ltsc.deep_view() =~= seq!["LTSC"@]);
        }
        let service_channel = if util::contains_any_word(value, ws_ga) {
            ServiceChannel::GAC
        } else if util::contains_any_word(value, ws_ltsc) {
            ServiceChannel::LTSC
        } else {
            ServiceChannel::GAC
        };
        let editions = Editions(vec![edition]);
        proof {
            assert(editions.0@ =~= seq![edition]);
        }
        Ok(
            Windows10 {
                vendor: String::from_str("Microsoft"),
                product: String::from_str("Windows 10"),
                release,
                editions: Some(editions),
                service_channel,
            },
        )
    }

    /// The line rendered for one edition: vendor, product, edition,
    /// release, and the channel only when it is not a default one.
    pub open spec fn line_spec(self, e: Edition) -> Seq<char> {
        if self.service_channel.is_default_spec() {
            self.vendor@ + " "@ + self.product@ + " "@ + e.name_spec() + " "@ + self.release.0@
        } else {
            self.vendor@ + " "@ + self.product@ + " "@ + e.name_spec() + " "@ + self.release.0@
                + " "@ + self.service_channel.name_spec()
        }
    }

    /// The single line rendered when the record has no edition concept.
    pub open spec fn line_no_edition_spec(self) -> Seq<char> {
        if self.service_channel.is_default_spec() {
            self.vendor@ + " "@ + self.product@ + " "@ + self.release.0@
        } else {
            self.vendor@ + " "@ + self.product@ + " "@ + self.release.0@ + " "@
                + self.service_channel.name_spec()
        }
    }

    /// One display line per edition; a record without an edition concept
    /// renders exactly one line.
    pub fn to_string(&self) -> (r: Vec<String>)
        ensures
            match self.editions {
                Some(eds) => r.deep_view().len() == eds.0@.len() && forall|i: int|
                    0 <= i < r.deep_view().len() ==> r.deep_view()[i] == self.line_spec(eds.0@[i]),
                None => r.deep_view() == seq![self.line_no_edition_spec()],
            },
    {
        match &self.editions {
            Some(eds) => {
                let mut out: Vec<String> = Vec::new();
                let mut i: usize = 0;
                while i < eds.0.len()
                    invariant
                        i <= eds.0@.len(),
                        self.editions matches Some(e2) && e2.0@ == eds.0@,
                        out.deep_view().len() == i,
                        forall|k: int|
                            0 <= k < i ==> out.deep_view()[k] == self.line_spec(eds.0@[k]),
                    decreases eds.0@.len() - i,
                {
                    let e = eds.0[i];
                    let mut line = String::from_str(self.vendor.as_str());
                    line.append(" ");
                    line.append(self.product.as_str());
                    line.append(" ");
                    let en = e.to_string();
                    line.append(en.as_str());
                    line.append(" ");
                    line.append(self.release.0.as_str());
                    if !self.service_channel.is_default() {
                        line.append(" ");
                        let cn = self.service_channel.to_string();
                        line.append(cn.as_str());
                    }
                    let ghost prev = out.deep_view();
                    out.push(line);
                    proof {
                        assert(out.deep_view() =~= prev.push(line@));
                    }
                    i = i + 1;
                }
                out
            },
            None => {
                let mut line = String::from_str(self.vendor.as_str());
                line.append(" ");
                line.append(self.product.as_str());
                line.append(" ");
                line.append(self.release.0.as_str());
                if !self.service_channel.is_default() {
                    line.append(" ");
                    let cn = self.service_channel.to_string();
                    line.append(cn.as_str());
                }
                let out = vec![line];
                proof {
                    assert(out.deep_view() =~= seq![self.line_no_edition_spec()]);
                }
                out
            },
        }
    }
}

} // verus!
