//! Windows 11: the second dual-mode family. Structured labels carry the
//! discriminator `11`, a release token, a mandatory edition-group selector,
//! and an optional channel selector; free-text labels are searched for an
//! edition keyword, a build number or release label, and a channel keyword.

use vstd::prelude::*;
use vstd::string::StringExecFns;

use crate::build_index;
use crate::build_index::BuildIndex;
use crate::errors::ParseError;
use crate::label::EndOfLifeLabel;
use crate::label::GenericLabel;
use crate::text;
use crate::util;

verus! {

pub struct Windows11 {
    pub vendor: String,
    pub product: String,
    pub release: Release,
    pub editions: Editions,
    pub service_channel: ServiceChannel,
}

pub struct Release(pub String);

impl Release {
    pub fn from_token(t: &str) -> (r: Release)
        ensures
            r.0@ == text::upper_seq(t@),
    {
        Release(text::to_upper(t))
    }

    pub fn to_string(&self) -> (r: String)
        ensures
            r@ == self.0@,
    {
        self.0.clone()
    }
}

#[derive(Clone, Copy, Debug, PartialEq, Eq, Structural)]
pub enum Edition {
    Education,
    Enterprise,
    EnterpriseMultiSession,
    Home,
    IoTEnterprise,
    Pro,
    ProEducation,
    ProForWorkstations,
}

impl Edition {
    pub open spec fn name_spec(self) -> Seq<char> {
        match self {
            Edition::Education => "Education"@,
            Edition::Enterprise => "Enterprise"@,
            Edition::EnterpriseMultiSession => "Enterprise multi-session"@,
            Edition::Home => "Home"@,
            Edition::IoTEnterprise => "IoT Enterprise"@,
            Edition::Pro => "Pro"@,
            Edition::ProEducation => "Pro Education"@,
            Edition::ProForWorkstations => "Pro for Workstations"@,
        }
    }

    pub fn to_string(&self) -> (r: String)
        ensures
            r@ == self.name_spec(),
    {
        match *self {
            Edition::Education => String::from_str("Education"),
            Edition::Enterprise => String::from_str("Enterprise"),
            Edition::EnterpriseMultiSession => String::from_str("Enterprise multi-session"),
            Edition::Home => String::from_str("Home"),
            Edition::IoTEnterprise => String::from_str("IoT Enterprise"),
            Edition::Pro => String::from_str("Pro"),
            Edition::ProEducation => String::from_str("Pro Education"),
            Edition::ProForWorkstations => String::from_str("Pro for Workstations"),
        }
    }
}

pub struct Editions(pub Vec<Edition>);

/// The education/enterprise tier.
pub open spec fn e_editions() -> Seq<Edition> {
    seq![Edition::Education, Edition::Enterprise, Edition::EnterpriseMultiSession]
}

/// The IoT tier.
pub open spec fn iot_editions() -> Seq<Edition> {
    seq![Edition::IoTEnterprise]
}

/// The consumer/workstation tier.
pub open spec fn w_editions() -> Seq<Edition> {
    seq![Edition::Home, Edition::Pro, Edition::ProEducation, Edition::ProForWorkstations]
}

/// The edition set an edition-group selector token names.
pub open spec fn selector_editions(t: Seq<char>) -> Option<Seq<Edition>> {
    if t == "e"@ {
        Some(e_editions())
    } else if t == "iot"@ {
        Some(iot_editions())
    } else if t == "w"@ {
        Some(w_editions())
    } else {
        None
    }
}

impl Editions {
    pub fn all_e() -> (r: Editions)
        ensures
            r.0@ == e_editions(),
    {
        let v = vec![Edition::Education, Edition::Enterprise, Edition::EnterpriseMultiSession];
        proof {
            assert(v@ =~= e_editions());
        }
        Editions(v)
    }

    pub fn all_iot() -> (r: Editions)
        ensures
            r.0@ == iot_editions(),
    {
        let v = vec![Edition::IoTEnterprise];
        proof {
            assert(v@ =~= iot_editions());
        }
        Editions(v)
    }

    pub fn all_w() -> (r: Editions)
        ensures
            r.0@ == w_editions(),
    {
        let v = vec![
            Edition::Home,
            Edition::Pro,
            Edition::ProEducation,
            Edition::ProForWorkstations,
        ];
        proof {
            assert(v@ =~= w_editions());
        }
        Editions(v)
    }

    /// The editions an edition-group selector names, or nothing for an
    /// unrecognized selector.
    pub fn from_selector(t: &str) -> (r: Option<Editions>)
        ensures
            match r {
                Some(eds) => selector_editions(t@) == Some(eds.0@),
                None => selector_editions(t@) is None,
            },
    {
        if text::str_eq(t, "e") {
            Some(Editions::all_e())
        } else if text::str_eq(t, "iot") {
            Some(Editions::all_iot())
        } else if text::str_eq(t, "w") {
            Some(Editions::all_w())
        } else {
            None
        }
    }

    pub fn contains(&self, edition: Edition) -> (r: bool)
        ensures
            r == self.0@.contains(edition),
    {
        let mut i: usize = 0;
        while i < self.0.len()
            invariant
                i <= self.0@.len(),
                forall|k: int| 0 <= k < i ==> self.0@[k] != edition,
            decreases self.0@.len() - i,
        {
            if self.0[i] == edition {
                return true;
            }
            i = i + 1;
        }
        false
    }

    pub fn len(&self) -> (r: usize)
        ensures
            r == self.0@.len(),
    {
        self.0.len()
    }
}

#[derive(Clone, Copy, Debug, PartialEq, Eq, Structural)]
pub enum ServiceChannel {
    GAC,
    LTSC,
}

impl ServiceChannel {
    pub open spec fn name_spec(self) -> Seq<char> {
        match self {
            ServiceChannel::GAC => "GAC"@,
            ServiceChannel::LTSC => "LTSC"@,
        }
    }

    pub open spec fn is_default_spec(self) -> bool {
        match self {
            ServiceChannel::GAC => true,
            ServiceChannel::LTSC => false,
        }
    }

    /// The default channel is left out of the rendered line.
    pub fn is_default(&self) -> (r: bool)
        ensures
            r == self.is_default_spec(),
    {
        match *self {
            ServiceChannel::GAC => true,
            ServiceChannel::LTSC => false,
        }
    }

    pub fn to_string(&self) -> (r: String)
        ensures
            r@ == self.name_spec(),
    {
        match *self {
            ServiceChannel::GAC => String::from_str("GAC"),
            ServiceChannel::LTSC => String::from_str("LTSC"),
        }
    }

    /// The channel an explicit channel selector token asks for.
    pub open spec fn from_token_spec(t: Seq<char>) -> ServiceChannel {
        if t == "lts"@ {
            ServiceChannel::LTSC
        } else {
            ServiceChannel::GAC
        }
    }

    pub fn from_token(t: &str) -> (r: ServiceChannel)
        ensures
            r == ServiceChannel::from_token_spec(t@),
    {
        if text::str_eq(t, "lts") {
            ServiceChannel::LTSC
        } else {
            ServiceChannel::GAC
        }
    }
}

/// The structured grammar: discriminator `11`, a release token, a
/// mandatory edition-group selector, then an optional channel selector.
pub open spec fn structured_accepts(toks: Seq<Seq<char>>) -> bool {
    &&& toks[0] == "11"@
    &&& (toks.len() == 3 || toks.len() == 4)
    &&& selector_editions(toks[2]) is Some
}

pub open spec fn structured_reject(toks: Seq<Seq<char>>) -> ParseError {
    if toks[0] != "11"@ {
        ParseError::NotThisFamily
    } else if toks.len() < 3 || toks.len() > 4 {
        ParseError::MalformedLabel
    } else {
        ParseError::UnrecognizedField
    }
}

/// What a structured parse yields, field by field.
pub open spec fn structured_ok(toks: Seq<Seq<char>>, w: Windows11) -> bool {
    &&& w.vendor@ == "Microsoft"@
    &&& w.product@ == "Windows 11"@
    &&& w.release.0@ == text::upper_seq(toks[1])
    &&& selector_editions(toks[2]) == Some(w.editions.0@)
    &&& w.service_channel == if toks.len() == 3 {
        ServiceChannel::GAC
    } else {
        ServiceChannel::from_token_spec(toks[3])
    }
}

/// Free text: the first edition whose keyword list matches, checked in a
/// fixed order with the longer phrases ahead of their substrings.
pub open spec fn ft_edition(s: Seq<char>) -> Option<Edition> {
    if util::any_word_occurs(s, seq!["Education Edition"@, "Education"@]) {
        Some(Edition::Education)
    } else if util::any_word_occurs(s, seq!["Enterprise Edition"@, "Enterprise"@]) {
        Some(Edition::Enterprise)
    } else if util::any_word_occurs(s, seq!["Home Edition"@, "Home"@]) {
        Some(Edition::Home)
    } else if util::any_word_occurs(s, seq!["Professional Edition"@, "Professional"@, "Pro"@]) {
        Some(Edition::Pro)
    } else {
        None
    }
}

/// Free text: a five-digit build number resolved through the reverse index
/// when one is present, otherwise the first release label of the family
/// vocabulary that occurs whole-word.
pub open spec fn ft_release(s: Seq<char>) -> Result<Seq<char>, ParseError> {
    let fwd = build_index::windows_11_correspondence();
    let p = util::first_digit_run(s, 0, 5);
    if p < s.len() {
        match build_index::entries_lookup(build_index::inverted(fwd), s.subrange(p, p + 5)) {
            Some(rel) => Ok(text::upper_seq(rel)),
            None => Err(ParseError::UnknownBuild),
        }
    } else {
        let labels = build_index::labels_of(fwd);
        let q = util::first_word_index(s, labels, 0);
        if q < labels.len() {
            Ok(text::upper_seq(labels[q]))
        } else {
            Err(ParseError::UnknownRelease)
        }
    }
}

/// Free text: a channel keyword when present; inference failure is not
/// fatal and falls back to the default channel.
pub open spec fn ft_channel(s: Seq<char>) -> ServiceChannel {
    if util::any_word_occurs(s, seq!["General Availability"@, "GA"@]) {
        ServiceChannel::GAC
    } else if util::any_word_occurs(s, seq!["LTSC"@]) {
        ServiceChannel::LTSC
    } else {
        ServiceChannel::GAC
    }
}

pub open spec fn ft_accepts(s: Seq<char>) -> bool {
    ft_edition(s) is Some && ft_release(s) is Ok
}

pub open spec fn ft_reject(s: Seq<char>) -> ParseError {
    if ft_edition(s) is None {
        ParseError::UnknownEdition
    } else {
        ft_release(s)->Err_0
    }
}

pub open spec fn ft_ok(s: Seq<char>, w: Windows11) -> bool {
    &&& w.vendor@ == "Microsoft"@
    &&& w.product@ == "Windows 11"@
    &&& ft_release(s) matches Ok(rel) && w.release.0@ == rel
    &&& ft_edition(s) matches Some(e) && w.editions.0@ == seq![e]
    &&& w.service_channel == ft_channel(s)
}

/// The whole recognizer: the classifier picks the token view, and the view
/// picks the grammar.
pub open spec fn accepts(s: Seq<char>) -> bool {
    if text::is_structured(s) {
        structured_accepts(text::split_dashes(s))
    } else {
        ft_accepts(s)
    }
}

pub open spec fn reject_reason(s: Seq<char>) -> ParseError {
    if text::is_structured(s) {
        structured_reject(text::split_dashes(s))
    } else {
        ft_reject(s)
    }
}

pub open spec fn parse_ok(s: Seq<char>, w: Windows11) -> bool {
    if text::is_structured(s) {
        structured_ok(text::split_dashes(s), w)
    } else {
        ft_ok(s, w)
    }
}

impl Windows11 {
    /// A record with the family defaults and an empty edition set, to be
    /// filled by `editions`.
    pub fn build(release: Release, service_channel: ServiceChannel) -> (r: Windows11)
        ensures
            r.vendor@ == "Microsoft"@,
            r.product@ == "Windows 11"@,
            r.release == release,
            r.editions.0@ == Seq::<Edition>::empty(),
            r.service_channel == service_channel,
    {
        let eds = Editions(Vec::new());
        proof {
            assert(eds.0@ =~= Seq::<Edition>::empty());
        }
        Windows11 {
            vendor: String::from_str("Microsoft"),
            product: String::from_str("Windows 11"),
            release,
            editions: eds,
            service_channel,
        }
    }

    /// The same record with its edition set chosen.
    pub fn editions(self, editions: Editions) -> (r: Windows11)
        ensures
            r.editions == editions,
            r.vendor == self.vendor,
            r.product == self.product,
            r.release == self.release,
            r.service_channel == self.service_channel,
    {
        Windows11 { editions, ..self }
    }

    pub fn parse(value: &str) -> (r: Result<Windows11, ParseError>)
        ensures
            match r {
                Ok(w) => accepts(value@) && parse_ok(value@, w),
                Err(e) => !accepts(value@) && e == reject_reason(value@),
            },
    {
        match EndOfLifeLabel::parse(value) {
            Ok(label) => Windows11::parse_structured(&label),
            Err(_) => Windows11::parse_free_text(&GenericLabel::new(value)),
        }
    }

    pub fn parse_structured(label: &EndOfLifeLabel) -> (r: Result<Windows11, ParseError>)
        requires
            label@.len() >= 1,
        ensures
            match r {
                Ok(w) => structured_accepts(label@) && structured_ok(label@, w),
                Err(e) => !structured_accepts(label@) && e == structured_reject(label@),
            },
    {
        let n = label.len();
        let first = label.get(0).unwrap();
        if !text::str_eq(first.as_str(), "11") {
            return Err(ParseError::NotThisFamily);
        }
        if n < 3 || n > 4 {
            return Err(ParseError::MalformedLabel);
        }
        let release = Release::from_token(label.get(1).unwrap().as_str());
        let editions = match Editions::from_selector(label.get(2).unwrap().as_str()) {
            Some(eds) => eds,
            None => {
                return Err(ParseError::UnrecognizedField);
            },
        };
        let service_channel = if n == 3 {
            ServiceChannel::GAC
        } else {
            ServiceChannel::from_token(label.get(3).unwrap().as_str())
        };
        Ok(
            Windows11 {
                vendor: String::from_str("Microsoft"),
                product: String::from_str("Windows 11"),
                release,
                editions,
                service_channel,
            },
        )
    }

    pub fn parse_free_text(label: &GenericLabel) -> (r: Result<Windows11, ParseError>)
        ensures
            match r {
                Ok(w) => ft_accepts(label@) && ft_ok(label@, w),
                Err(e) => !ft_accepts(label@) && e == ft_reject(label@),
            },
    {
        let value = label.as_str();
        let ws_education: &[&str] = &["Education Edition", "Education"];
        let ws_enterprise: &[&str] = &["Enterprise Edition", "Enterprise"];
        let ws_home: &[&str] = &["Home Edition", "Home"];
        let ws_pro: &[&str] = &["Professional Edition", "Professional", "Pro"];
        proof {
            assert(ws_education.deep_view() =~= seq!["Education Edition"@, "Education"@]);
            assert(ws_enterprise.deep_view() =~= seq!["Enterprise Edition"@, "Enterprise"@]);
            assert(ws_home.deep_view() =~= seq!["Home Edition"@, "Home"@]);
            assert(ws_pro.deep_view() =~= seq!["Professional Edition"@, "Professional"@, "Pro"@]);
        }
        let edition = if util::contains_any_word(value, ws_education) {
            Edition::Education
        } else if util::contains_any_word(value, ws_enterprise) {
            Edition::Enterprise
        } else if util::contains_any_word(value, ws_home) {
            Edition::Home
        } else if util::contains_any_word(value, ws_pro) {
            Edition::Pro
        } else {
            return Err(ParseError::UnknownEdition);
        };
        let fwd = build_index::windows_11_release_builds();
        let release = match util::find_number_with_digits(value, 5) {
            Some(build) => {
                let index = BuildIndex::from_correspondence(&fwd);
                match index.resolve(build.as_str()) {
                    Ok(rel) => Release::from_token(rel.as_str()),
                    Err(e) => {
                        return Err(e);
                    },
                }
            },
            None => {
                let labels = build_index::release_labels(&fwd);
                match util::identify_release(value, &labels) {
                    Some(l) => Release::from_token(l.as_str()),
                    None => {
                        return Err(ParseError::UnknownRelease);
                    },
                }
            },
        };
        let ws_ga: &[&str] = &["General Availability", "GA"];
        let ws_ltsc: &[&str] = &["LTSC"];
        proof {
            assert(ws_ga.deep_view() =~= seq!["General Availability"@, "GA"@]);
            assert(ws_ltsc.deep_view() =~= seq!["LTSC"@]);
        }
        let service_channel = if util::contains_any_word(value, ws_ga) {
            ServiceChannel::GAC
        } else if util::contains_any_word(value, ws_ltsc) {
            ServiceChannel::LTSC
        } else {
            ServiceChannel::GAC
        };
        let editions = Editions(vec![edition]);
        proof {
            assert(editions.0@ =~= seq![edition]);
        }
        Ok(
            Windows11 {
                vendor: String::from_str("Microsoft"),
                product: String::from_str("Windows 11"),
                release,
                editions,
                service_channel,
            },
        )
    }

    /// The line rendered for one edition: vendor, product, edition,
    /// release, and the channel only when it is not the default one.
    pub open spec fn line_spec(self, e: Edition) -> Seq<char> {
        if self.service_channel.is_default_spec() {
            self.vendor@ + " "@ + self.product@ + " "@ + e.name_spec() + " "@ + self.release.0@
        } else {
            self.vendor@ + " "@ + self.product@ + " "@ + e.name_spec() + " "@ + self.release.0@
                + " "@ + self.service_channel.name_spec()
        }
    }

    /// One display line per edition.
    pub fn to_string(&self) -> (r: Vec<String>)
        ensures
            r.deep_view().len() == self.editions.0@.len(),
            forall|i: int|
                0 <= i < r.deep_view().len() ==> r.deep_view()[i] == self.line_spec(
                    self.editions.0@[i],
                ),
    {
        let mut out: Vec<String> = Vec::new();
        let mut i: usize = 0;
        while i < self.editions.0.len()
            invariant
                i <= self.editions.0@.len(),
                out.deep_view().len() == i,
                forall|k: int|
                    0 <= k < i ==> out.deep_view()[k] == self.line_spec(self.editions.0@[k]),
            decreases self.editions.0@.len() - i,
        {
            let e = self.editions.0[i];
            let mut line = String::from_str(self.vendor.as_str());
            line.append(" ");
            line.append(self.product.as_str());
            line.append(" ");
            let en = e.to_string();
            line.append(en.as_str());
            line.append(" ");
            line.append(self.release.0.as_str());
            if !self.service_channel.is_default() {
                line.append(" ");
                let cn = self.service_channel.to_string();
                line.append(cn.as_str());
            }
            let ghost prev = out.deep_view();
            out.push(line);
            proof {
                assert(out.deep_view() =~= prev.push(line@));
            }
            i = i + 1;
        }
        out
    }
}

} // verus!
