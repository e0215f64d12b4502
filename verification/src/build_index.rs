//! The build → release reverse index. The source data is a correspondence
//! from release label to the build numbers historically associated with it;
//! the index is its inversion, built once and then only read. One build
//! number may map to several labels; lookups deterministically take the
//! first-inserted one.

use vstd::prelude::*;
use vstd::string::StringExecFns;

use crate::errors::ParseError;
use crate::text;

verus! {

/// The (build, release) pairs a single correspondence row contributes, in
/// the row's order.
pub open spec fn row_pairs(release: Seq<char>, builds: Seq<Seq<char>>) -> Seq<
    (Seq<char>, Seq<char>),
>
    decreases builds.len(),
{
    if builds.len() == 0 {
        Seq::empty()
    } else {
        seq![(builds[0], release)] + row_pairs(release, builds.drop_first())
    }
}

/// The whole inverted table: every row's pairs, in table order.
pub open spec fn inverted(fwd: Seq<(Seq<char>, Seq<Seq<char>>)>) -> Seq<(Seq<char>, Seq<char>)>
    decreases fwd.len(),
{
    if fwd.len() == 0 {
        Seq::empty()
    } else {
        row_pairs(fwd[0].0, fwd[0].1) + inverted(fwd.drop_first())
    }
}

/// The release of the first entry whose build number is `b`.
pub open spec fn entries_lookup(entries: Seq<(Seq<char>, Seq<char>)>, b: Seq<char>) -> Option<
    Seq<char>,
>
    decreases entries.len(),
{
    if entries.len() == 0 {
        None
    } else if entries[0].0 == b {
        Some(entries[0].1)
    } else {
        entries_lookup(entries.drop_first(), b)
    }
}

pub proof fn lemma_row_pairs_push(release: Seq<char>, builds: Seq<Seq<char>>, b: Seq<char>)
    ensures
        row_pairs(release, builds.push(b)) =~= row_pairs(release, builds) + seq![(b, release)],
    decreases builds.len(),
{
    if builds.len() == 0 {
        assert(builds.push(b).drop_first() =~= Seq::<Seq<char>>::empty());
        assert(row_pairs(release, Seq::<Seq<char>>::empty()) == Seq::<(Seq<char>, Seq<char>)>::empty());
        assert(builds.push(b)[0] == b);
    } else {
        assert(builds.push(b).drop_first() =~= builds.drop_first().push(b));
        lemma_row_pairs_push(release, builds.drop_first(), b);
    }
}

pub proof fn lemma_inverted_push(
    fwd: Seq<(Seq<char>, Seq<Seq<char>>)>,
    row: (Seq<char>, Seq<Seq<char>>),
)
    ensures
        inverted(fwd.push(row)) =~= inverted(fwd) + row_pairs(row.0, row.1),
    decreases fwd.len(),
{
    if fwd.len() == 0 {
        assert(fwd.push(row).drop_first() =~= Seq::<(Seq<char>, Seq<Seq<char>>)>::empty());
        assert(inverted(Seq::<(Seq<char>, Seq<Seq<char>>)>::empty()) == Seq::<(
            Seq<char>,
            Seq<char>,
        )>::empty());
        assert(fwd.push(row)[0] == row);
    } else {
        assert(fwd.push(row).drop_first() =~= fwd.drop_first().push(row));
        lemma_inverted_push(fwd.drop_first(), row);
    }
}

/// Looking a build up in a concatenation takes the left part's answer when
/// it has one.
pub proof fn lemma_lookup_add(
    a: Seq<(Seq<char>, Seq<char>)>,
    b: Seq<(Seq<char>, Seq<char>)>,
    key: Seq<char>,
)
    ensures
        entries_lookup(a + b, key) == if entries_lookup(a, key) is Some {
            entries_lookup(a, key)
        } else {
            entries_lookup(b, key)
        },
    decreases a.len(),
{
    if a.len() == 0 {
        assert(a + b =~= b);
    } else {
        assert((a + b).drop_first() =~= a.drop_first() + b);
        lemma_lookup_add(a.drop_first(), b, key);
    }
}

/// A row's pairs answer exactly the builds the row lists.
pub proof fn lemma_row_pairs_lookup(release: Seq<char>, builds: Seq<Seq<char>>, b: Seq<char>)
    ensures
        entries_lookup(row_pairs(release, builds), b) is Some <==> builds.contains(b),
        builds.contains(b) ==> entries_lookup(row_pairs(release, builds), b) == Some(release),
    decreases builds.len(),
{
    if builds.len() > 0 {
        let rp = row_pairs(release, builds);
        let rest = row_pairs(release, builds.drop_first());
        assert(rp == seq![(builds[0], release)] + rest);
        assert(rp[0] == (builds[0], release));
        assert(rp.drop_first() =~= rest);
        lemma_row_pairs_lookup(release, builds.drop_first(), b);
        if builds[0] == b {
            assert(builds.contains(b)) by {
                assert(builds[0] == b);
            }
            assert(entries_lookup(rp, b) == Some(release));
        } else {
            assert(builds.contains(b) <==> builds.drop_first().contains(b)) by {
                if builds.contains(b) {
                    let i = choose|i: int| 0 <= i < builds.len() && builds[i] == b;
                    assert(builds.drop_first()[i - 1] == b);
                    assert(builds.drop_first().contains(b));
                }
                if builds.drop_first().contains(b) {
                    let i = choose|i: int|
                        0 <= i < builds.drop_first().len() && builds.drop_first()[i] == b;
                    assert(builds[i + 1] == b);
                    assert(builds.contains(b));
                }
            }
            assert(entries_lookup(rp, b) == entries_lookup(rest, b));
        }
    }
}

/// Every build number a correspondence table lists is resolved by the
/// inverted index: lookups over the compiled table are total.
pub proof fn lemma_inverted_total(fwd: Seq<(Seq<char>, Seq<Seq<char>>)>, i: int, b: Seq<char>)
    requires
        0 <= i < fwd.len(),
        fwd[i].1.contains(b),
    ensures
        entries_lookup(inverted(fwd), b) is Some,
    decreases fwd.len(),
{
    lemma_lookup_add(row_pairs(fwd[0].0, fwd[0].1), inverted(fwd.drop_first()), b);
    if i == 0 {
        lemma_row_pairs_lookup(fwd[0].0, fwd[0].1, b);
    } else {
        lemma_inverted_total(fwd.drop_first(), i - 1, b);
    }
}

/// A build number no row lists is never resolved: the index answers for
/// exactly the builds of the source table.
pub proof fn lemma_inverted_complete(fwd: Seq<(Seq<char>, Seq<Seq<char>>)>, b: Seq<char>)
    requires
        forall|i: int| 0 <= i < fwd.len() ==> !#[trigger] fwd[i].1.contains(b),
    ensures
        entries_lookup(inverted(fwd), b) is None,
    decreases fwd.len(),
{
    if fwd.len() > 0 {
        lemma_lookup_add(row_pairs(fwd[0].0, fwd[0].1), inverted(fwd.drop_first()), b);
        lemma_row_pairs_lookup(fwd[0].0, fwd[0].1, b);
        assert(fwd[0].1.contains(b) == false);
        assert forall|i: int| 0 <= i < fwd.drop_first().len() implies !#[trigger] fwd.drop_first()[i].1.contains(
            b,
        ) by {
            assert(fwd.drop_first()[i] == fwd[i + 1]);
        }
        lemma_inverted_complete(fwd.drop_first(), b);
    }
}

/// The reverse index: (build, release) pairs in insertion order.
pub struct BuildIndex {
    pub entries: Vec<(String, String)>,
}

impl View for BuildIndex {
    type V = Seq<(Seq<char>, Seq<char>)>;

    open spec fn view(&self) -> Seq<(Seq<char>, Seq<char>)> {
        self.entries.deep_view()
    }
}

impl BuildIndex {
    /// Invert a release → builds correspondence into a build → release
    /// index, keeping table order.
    pub fn from_correspondence(fwd: &Vec<(String, Vec<String>)>) -> (r: BuildIndex)
        ensures
            r@ == inverted(fwd.deep_view()),
    {
        let mut entries: Vec<(String, String)> = Vec::new();
        let mut i: usize = 0;
        proof {
            assert(entries.deep_view() =~= inverted(fwd.deep_view().take(0)));
        }
        while i < fwd.len()
            invariant
                i <= fwd@.len(),
                entries.deep_view() =~= inverted(fwd.deep_view().take(i as int)),
            decreases fwd@.len() - i,
        {
            let release = &fwd[i].0;
            let builds = &fwd[i].1;
            let ghost row = fwd.deep_view()[i as int];
            let mut j: usize = 0;
            proof {
                assert(row == (row.0, row.1));
                assert(row_pairs(row.0, row.1.take(0)) =~= Seq::<(Seq<char>, Seq<char>)>::empty());
                assert(entries.deep_view() =~= inverted(fwd.deep_view().take(i as int))
                    + row_pairs(row.0, row.1.take(0)));
            }
            while j < builds.len()
                invariant
                    j <= builds@.len(),
                    row == fwd.deep_view()[i as int],
                    0 <= i < fwd@.len(),
                    builds == &fwd@[i as int].1,
                    release == &fwd@[i as int].0,
                    row.0 == release@,
                    row.1 == builds.deep_view(),
                    entries.deep_view() =~= inverted(fwd.deep_view().take(i as int)) + row_pairs(
                        row.0,
                        row.1.take(j as int),
                    ),
                decreases builds@.len() - j,
            {
                let pair = (builds[j].clone(), release.clone());
                let ghost prev = entries.deep_view();
                entries.push(pair);
                proof {
                    assert(entries.deep_view() =~= prev.push((builds@[j as int]@, release@)));
                    assert(row.1.take(j + 1) =~= row.1.take(j as int).push(row.1[j as int]));
                    lemma_row_pairs_push(row.0, row.1.take(j as int), row.1[j as int]);
                    assert(entries.deep_view() =~= inverted(fwd.deep_view().take(i as int))
                        + row_pairs(row.0, row.1.take(j + 1)));
                }
                j = j + 1;
            }
            proof {
                assert(row.1.take(builds@.len() as int) =~= row.1);
                assert(fwd.deep_view().take(i + 1) =~= fwd.deep_view().take(i as int).push(row));
                lemma_inverted_push(fwd.deep_view().take(i as int), row);
                assert(entries.deep_view() =~= inverted(fwd.deep_view().take(i + 1)));
            }
            i = i + 1;
        }
        proof {
            assert(fwd.deep_view().take(fwd@.len() as int) =~= fwd.deep_view());
        }
        BuildIndex { entries }
    }

    /// Resolve a build number to the first-inserted release label that
    /// carried it; a build absent from the table is an explicit error.
    pub fn resolve(&self, build: &str) -> (r: Result<String, ParseError>)
        ensures
            match r {
                Ok(rel) => entries_lookup(self@, build@) == Some(rel@),
                Err(e) => entries_lookup(self@, build@) is None && e == ParseError::UnknownBuild,
            },
    {
        let n = self.entries.len();
        let mut i: usize = 0;
        proof {
            assert(self@.skip(0) =~= self@);
        }
        while i < n
            invariant
                n == self.entries@.len(),
                i <= n,
                entries_lookup(self@, build@) == entries_lookup(self@.skip(i as int), build@),
            decreases n - i,
        {
            proof {
                assert(self@.skip(i as int)[0] == self@[i as int]);
                assert(self@[i as int] == (self.entries@[i as int].0@, self.entries@[i as int].1@));
            }
            if text::str_eq(self.entries[i].0.as_str(), build) {
                return Ok(self.entries[i].1.clone());
            }
            proof {
                assert(self@.skip(i as int).drop_first() =~= self@.skip(i + 1));
            }
            i = i + 1;
        }
        proof {
            assert(self@.skip(n as int).len() == 0);
        }
        Err(ParseError::UnknownBuild)
    }
}

/// The Windows 10 release ↔ build correspondence, as the external build
/// step hands it over.
pub open spec fn windows_10_correspondence() -> Seq<(Seq<char>, Seq<Seq<char>>)> {
    seq![
        ("1507"@, seq!["10240"@]),
        ("1511"@, seq!["10586"@]),
        ("1607"@, seq!["14393"@]),
        ("1703"@, seq!["15063"@]),
        ("1709"@, seq!["16299"@]),
        ("1803"@, seq!["17134"@]),
        ("1809"@, seq!["17763"@]),
        ("1903"@, seq!["18362"@]),
        ("1909"@, seq!["18363"@]),
        ("2004"@, seq!["19041"@]),
        ("20H2"@, seq!["19042"@]),
        ("21H1"@, seq!["19043"@]),
        ("21H2"@, seq!["19044"@]),
        ("22H2"@, seq!["19045"@]),
    ]
}

/// The Windows 11 release ↔ build correspondence.
pub open spec fn windows_11_correspondence() -> Seq<(Seq<char>, Seq<Seq<char>>)> {
    seq![
        ("21H2"@, seq!["22000"@]),
        ("22H2"@, seq!["22621"@]),
        ("23H2"@, seq!["22631"@]),
        ("24H2"@, seq!["26100"@]),
        ("25H2"@, seq!["26200"@]),
    ]
}

fn row(release: &str, build: &str) -> (r: (String, Vec<String>))
    ensures
        r.deep_view() == (release@, seq![build@]),
{
    let builds = vec![String::from_str(build)];
    proof {
        assert(builds.deep_view() =~= seq![build@]);
    }
    (String::from_str(release), builds)
}

pub fn windows_10_release_builds() -> (r: Vec<(String, Vec<String>)>)
    ensures
        r.deep_view() == windows_10_correspondence(),
{
    let v = vec![
        row("1507", "10240"),
        row("1511", "10586"),
        row("1607", "14393"),
        row("1703", "15063"),
        row("1709", "16299"),
        row("1803", "17134"),
        row("1809", "17763"),
        row("1903", "18362"),
        row("1909", "18363"),
        row("2004", "19041"),
        row("20H2", "19042"),
        row("21H1", "19043"),
        row("21H2", "19044"),
        row("22H2", "19045"),
    ];
    proof {
        assert(v.deep_view() =~~= windows_10_correspondence());
    }
    v
}

pub fn windows_11_release_builds() -> (r: Vec<(String, Vec<String>)>)
    ensures
        r.deep_view() == windows_11_correspondence(),
{
    let v = vec![
        row("21H2", "22000"),
        row("22H2", "22621"),
        row("23H2", "22631"),
        row("24H2", "26100"),
        row("25H2", "26200"),
    ];
    proof {
        assert(v.deep_view() =~~= windows_11_correspondence());
    }
    v
}

/// The release labels of a correspondence table, in table order: the
/// vocabulary the free-text release extraction falls back to.
pub open spec fn labels_of(fwd: Seq<(Seq<char>, Seq<Seq<char>>)>) -> Seq<Seq<char>> {
    fwd.map_values(|p: (Seq<char>, Seq<Seq<char>>)| p.0)
}

pub fn release_labels(fwd: &Vec<(String, Vec<String>)>) -> (r: Vec<String>)
    ensures
        r.deep_view() == labels_of(fwd.deep_view()),
{
    let mut out: Vec<String> = Vec::new();
    let mut i: usize = 0;
    while i < fwd.len()
        invariant
            i <= fwd@.len(),
            out.deep_view().len() == i,
            forall|k: int| 0 <= k < i ==> out.deep_view()[k] == fwd.deep_view()[k].0,
        decreases fwd@.len() - i,
    {
        let ghost prev = out.deep_view();
        out.push(fwd[i].0.clone());
        proof {
            assert(out.deep_view() =~= prev.push(fwd@[i as int].0@));
        }
        i = i + 1;
    }
    proof {
        assert(out.deep_view() =~= labels_of(fwd.deep_view()));
    }
    out
}

} // verus!
