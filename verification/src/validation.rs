//! Emoji suggestions from the names of the changed files.

use crate::text::chars_of;
use crate::text::has_infix;
use crate::text::has_prefix;
use crate::text::has_suffix;
use crate::text::lowercase;
use crate::text::occurs_in;
use crate::text::to_lowercase;
use vstd::prelude::*;

verus! {

/// What the name of a file hints at.
#[derive(Debug, Clone, Copy, PartialEq, Eq, Structural)]
pub enum Hint {
    Docs,
    Test,
    Style,
    Config,
    Docker,
    Security,
    Performance,
}

impl Hint {
    /// The glyph that stands for the hint.
    pub open spec fn glyph(self) -> Seq<char> {
        match self {
            Hint::Docs => seq!['\u{1F4DD}'],
            Hint::Test => seq!['\u{2705}'],
            Hint::Style => seq!['\u{1F484}'],
            Hint::Config => seq!['\u{1F527}'],
            Hint::Docker => seq!['\u{1F433}'],
            Hint::Security => seq!['\u{1F512}'],
            Hint::Performance => seq!['\u{26A1}'],
        }
    }

    /// The glyph that stands for the hint.
    pub fn emoji(&self) -> (out: &'static str)
        ensures
            out@ == self.glyph(),
    {
        proof {
            reveal_strlit("\u{1F4DD}");
            reveal_strlit("\u{2705}");
            reveal_strlit("\u{1F484}");
            reveal_strlit("\u{1F527}");
            reveal_strlit("\u{1F433}");
            reveal_strlit("\u{1F512}");
            reveal_strlit("\u{26A1}");
        }
        let out: &'static str = match self {
            Hint::Docs => "\u{1F4DD}",
            Hint::Test => "\u{2705}",
            Hint::Style => "\u{1F484}",
            Hint::Config => "\u{1F527}",
            Hint::Docker => "\u{1F433}",
            Hint::Security => "\u{1F512}",
            Hint::Performance => "\u{26A1}",
        };
        out
    }
}

/// What the file with the lower-case name `name` hints at. The first that
/// fits decides: documentation, tests, styling, configuration, containers,
/// security, performance.
pub open spec fn hint_of(name: Seq<char>) -> Option<Hint> {
    if ".md"@.is_suffix_of(name) || ".rst"@.is_suffix_of(name) || ".txt"@.is_suffix_of(name) {
        Some(Hint::Docs)
    } else if occurs_in("test"@, name) || occurs_in("spec"@, name) {
        Some(Hint::Test)
    } else if ".css"@.is_suffix_of(name) || ".scss"@.is_suffix_of(name) || ".sass"@.is_suffix_of(
        name,
    ) {
        Some(Hint::Style)
    } else if ".json"@.is_suffix_of(name) || ".toml"@.is_suffix_of(name) || ".yaml"@.is_suffix_of(
        name,
    ) || ".yml"@.is_suffix_of(name) {
        Some(Hint::Config)
    } else if "dockerfile"@.is_prefix_of(name) || ".dockerfile"@.is_suffix_of(name) {
        Some(Hint::Docker)
    } else if occurs_in("security"@, name) || occurs_in("auth"@, name) {
        Some(Hint::Security)
    } else if occurs_in("performance"@, name) || occurs_in("perf"@, name) {
        Some(Hint::Performance)
    } else {
        None
    }
}

/// What the file with the lower-case name `name` hints at.
pub fn file_hint(name: &str) -> (hint: Option<Hint>)
    ensures
        hint == hint_of(name@),
{
    let v: Vec<char> = chars_of(name);
    let s: &[char] = v.as_slice();
    if has_suffix(s, ".md") || has_suffix(s, ".rst") || has_suffix(s, ".txt") {
        Some(Hint::Docs)
    } else if has_infix(s, "test") || has_infix(s, "spec") {
        Some(Hint::Test)
    } else if has_suffix(s, ".css") || has_suffix(s, ".scss") || has_suffix(s, ".sass") {
        Some(Hint::Style)
    } else if has_suffix(s, ".json") || has_suffix(s, ".toml") || has_suffix(s, ".yaml")
        || has_suffix(s, ".yml") {
        Some(Hint::Config)
    } else if has_prefix(s, "dockerfile") || has_suffix(s, ".dockerfile") {
        Some(Hint::Docker)
    } else if has_infix(s, "security") || has_infix(s, "auth") {
        Some(Hint::Security)
    } else if has_infix(s, "performance") || has_infix(s, "perf") {
        Some(Hint::Performance)
    } else {
        None
    }
}

/// Some file of `files` hints at `hint`.
pub open spec fn hinted(files: Seq<Seq<char>>, hint: Hint) -> bool {
    exists|i: int| 0 <= i < files.len() && hint_of(lowercase(#[trigger] files[i])) == Some(hint)
}

/// The glyph of `hint` if some file hints at it, and nothing otherwise.
pub open spec fn glyph_if_hinted(files: Seq<Seq<char>>, hint: Hint) -> Seq<Seq<char>> {
    if hinted(files, hint) {
        seq![hint.glyph()]
    } else {
        Seq::empty()
    }
}

/// The glyphs that `files` hint at: each once, in the order of their code points.
pub open spec fn suggested_glyphs(files: Seq<Seq<char>>) -> Seq<Seq<char>> {
    glyph_if_hinted(files, Hint::Performance) + glyph_if_hinted(files, Hint::Test)
        + glyph_if_hinted(files, Hint::Docker) + glyph_if_hinted(files, Hint::Style)
        + glyph_if_hinted(files, Hint::Docs) + glyph_if_hinted(files, Hint::Security)
        + glyph_if_hinted(files, Hint::Config)
}

/// The suggestions are sorted and hold no glyph twice: each is one
/// character, and the characters rise strictly.
pub proof fn lemma_suggestions_rise(files: Seq<Seq<char>>)
    ensures
        forall|i: int|
            0 <= i < suggested_glyphs(files).len() ==> (#[trigger] suggested_glyphs(files)[i]).len()
                == 1,
        forall|i: int, j: int|
            0 <= i < j < suggested_glyphs(files).len() ==> suggested_glyphs(files)[i][0]
                < suggested_glyphs(files)[j][0],
{
}

/// Each glyph among the suggestions stands for a hint that some file gives,
/// and each hint that some file gives has its glyph among them.
pub proof fn lemma_suggestions_are_the_hints(files: Seq<Seq<char>>, hint: Hint)
    ensures
        suggested_glyphs(files).contains(hint.glyph()) <==> hinted(files, hint),
{
    let all = suggested_glyphs(files);
    if hinted(files, hint) {
        lemma_place_of_a_hint(files, hint);
    }
    if all.contains(hint.glyph()) {
        let i = choose|i: int| 0 <= i < all.len() && all[i] == hint.glyph();
        lemma_glyphs_come_from_hints(files, i);
        assert(all[i][0] == hint.glyph()[0]);
    }
}

/// The glyph of a hint that some file gives is among the suggestions.
proof fn lemma_place_of_a_hint(files: Seq<Seq<char>>, hint: Hint)
    requires
        hinted(files, hint),
    ensures
        suggested_glyphs(files).contains(hint.glyph()),
{
    let a = glyph_if_hinted(files, Hint::Performance);
    let b = a + glyph_if_hinted(files, Hint::Test);
    let c = b + glyph_if_hinted(files, Hint::Docker);
    let d = c + glyph_if_hinted(files, Hint::Style);
    let e = d + glyph_if_hinted(files, Hint::Docs);
    let f = e + glyph_if_hinted(files, Hint::Security);
    let at: int = match hint {
        Hint::Performance => 0,
        Hint::Test => a.len() as int,
        Hint::Docker => b.len() as int,
        Hint::Style => c.len() as int,
        Hint::Docs => d.len() as int,
        Hint::Security => e.len() as int,
        Hint::Config => f.len() as int,
    };
    assert(suggested_glyphs(files)[at] == hint.glyph());
}

/// Each of the suggestions is the glyph of a hint that some file gives.
proof fn lemma_glyphs_come_from_hints(files: Seq<Seq<char>>, i: int)
    requires
        0 <= i < suggested_glyphs(files).len(),
    ensures
        exists|hint: Hint| hinted(files, hint) && suggested_glyphs(files)[i] == hint.glyph(),
{
    let a = glyph_if_hinted(files, Hint::Performance);
    let b = a + glyph_if_hinted(files, Hint::Test);
    let c = b + glyph_if_hinted(files, Hint::Docker);
    let d = c + glyph_if_hinted(files, Hint::Style);
    let e = d + glyph_if_hinted(files, Hint::Docs);
    let f = e + glyph_if_hinted(files, Hint::Security);
    let hint = if i < a.len() {
        Hint::Performance
    } else if i < b.len() {
        Hint::Test
    } else if i < c.len() {
        Hint::Docker
    } else if i < d.len() {
        Hint::Style
    } else if i < e.len() {
        Hint::Docs
    } else if i < f.len() {
        Hint::Security
    } else {
        Hint::Config
    };
}

/// What is known of a set of files once each name has been looked at.
struct Seen {
    docs: bool,
    test: bool,
    style: bool,
    config: bool,
    docker: bool,
    security: bool,
    performance: bool,
}

impl Seen {
    spec fn describe(self, files: Seq<Seq<char>>) -> bool {
        &&& self.docs == hinted(files, Hint::Docs)
        &&& self.test == hinted(files, Hint::Test)
        &&& self.style == hinted(files, Hint::Style)
        &&& self.config == hinted(files, Hint::Config)
        &&& self.docker == hinted(files, Hint::Docker)
        &&& self.security == hinted(files, Hint::Security)
        &&& self.performance == hinted(files, Hint::Performance)
    }
}

/// Adds the glyph of `hint` to `out` if `wanted`.
fn push_if(out: &mut Vec<&'static str>, wanted: bool, hint: Hint)
    ensures
        final(out).deep_view() == old(out).deep_view() + (if wanted {
            seq![hint.glyph()]
        } else {
            Seq::empty()
        }),
{
    if wanted {
        out.push(hint.emoji());
    }
}

pub struct ValidationService;

impl ValidationService {
    /// The glyphs that the names of the changed files hint at: each once,
    /// sorted.
    pub fn suggest_emoji_by_files(changed_files: &[String]) -> (out: Vec<&'static str>)
        ensures
            out.deep_view() == suggested_glyphs(changed_files.deep_view()),
    {
        let mut seen = Seen {
            docs: false,
            test: false,
            style: false,
            config: false,
            docker: false,
            security: false,
            performance: false,
        };
        let ghost all = changed_files.deep_view();
        let n: usize = changed_files.len();
        let mut i: usize = 0;
        while i < n
            invariant
                i <= n,
                n == changed_files.len(),
                all == changed_files.deep_view(),
                seen.describe(all.take(i as int)),
            decreases n - i,
        {
            let ghost before = all.take(i as int);
            let ghost next = all.take(i + 1);
            let lower: String = to_lowercase(changed_files[i].as_str());
            let hint: Option<Hint> = file_hint(lower.as_str());
            proof {
                assert(next.last() == changed_files[i as int]@);
                assert forall|h: Hint| hinted(next, h) == (hinted(before, h) || hint == Some(h)) by {
                    if hinted(before, h) {
                        let j = choose|j: int|
                            0 <= j < before.len() && hint_of(lowercase(#[trigger] before[j]))
                                == Some(h);
                        assert(next[j] == before[j]);
                    }
                    if hint == Some(h) {
                        assert(hint_of(lowercase(next[i as int])) == Some(h));
                    }
                    if hinted(next, h) {
                        let j = choose|j: int|
                            0 <= j < next.len() && hint_of(lowercase(#[trigger] next[j])) == Some(
                                h,
                            );
                        if j < i {
                            assert(before[j] == next[j]);
                        }
                    }
                }
            }
            match hint {
                Some(Hint::Docs) => {
                    seen.docs = true;
                },
                Some(Hint::Test) => {
                    seen.test = true;
                },
                Some(Hint::Style) => {
                    seen.style = true;
                },
                Some(Hint::Config) => {
                    seen.config = true;
                },
                Some(Hint::Docker) => {
                    seen.docker = true;
                },
                Some(Hint::Security) => {
                    seen.security = true;
                },
                Some(Hint::Performance) => {
                    seen.performance = true;
                },
                None => {},
            }
            i += 1;
        }
        assert(all.take(n as int) =~= all);
        let mut out: Vec<&'static str> = Vec::new();
        assert(out.deep_view() =~= Seq::<Seq<char>>::empty());
        push_if(&mut out, seen.performance, Hint::Performance);
        push_if(&mut out, seen.test, Hint::Test);
        push_if(&mut out, seen.docker, Hint::Docker);
        push_if(&mut out, seen.style, Hint::Style);
        push_if(&mut out, seen.docs, Hint::Docs);
        push_if(&mut out, seen.security, Hint::Security);
        push_if(&mut out, seen.config, Hint::Config);
        assert(out.deep_view() =~= suggested_glyphs(all));
        out
    }
}

} // verus!
