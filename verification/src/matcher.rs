//! The Ignore Matcher: decides whether a window is exempt from decoration,
//! from a fixed set of shell window classes and the user's configured
//! exclusion patterns, and holds the process-wide configuration.

use vstd::prelude::*;
use vstd::string::StringExecFns;

verus! {

#[verifier::external_type_specification]
#[verifier::external_body]
pub struct ExRegex(regex::Regex);

/// Whether `regex::Regex::new` accepts `pattern`: a function of the pattern
/// text alone.
pub uninterp spec fn pattern_compiles(pattern: Seq<char>) -> bool;

/// Whether the regular expression compiled from `pattern` matches anywhere
/// in `text`: a function of the two texts alone.
pub uninterp spec fn pattern_matches(pattern: Seq<char>, text: Seq<char>) -> bool;

/// A user-configured exclusion pattern kept beside its compiled form.
pub struct CompiledPattern {
    source: String,
    regex: regex::Regex,
}

impl View for CompiledPattern {
    type V = Seq<char>;

    closed spec fn view(&self) -> Seq<char> {
        self.source@
    }
}

impl CompiledPattern {
    /// Relies on regex::Regex::new: compilation succeeds or fails on the
    /// pattern text alone (an invalid pattern, or one over the default size
    /// limit, is refused and never panics). The compiled form is stored
    /// beside its source text; this constructor is the only way to build the
    /// pair, so the two always agree.
    #[verifier::external_body]
    pub fn compile(source: &str) -> (r: Option<CompiledPattern>)
        ensures
            r is Some <==> pattern_compiles(source@),
            r matches Some(p) ==> p@ == source@,
    {
        match regex::Regex::new(source) {
            Ok(regex) => Some(CompiledPattern { source: source.to_owned(), regex }),
            Err(_) => None,
        }
    }

    /// Relies on regex::Regex::is_match: whether a match exists anywhere in
    /// `text` is a function of the pattern and the haystack alone. The
    /// `regex` field holds the compiled form of `source` (see `compile`), so
    /// the result is `pattern_matches` of this pattern's view.
    #[verifier::external_body]
    pub fn matches(&self, text: &str) -> (r: bool)
        ensures
            r == pattern_matches(self@, text@),
    {
        self.regex.is_match(text)
    }
}

/// The shell and desktop-chrome window classes that are never decorated:
/// the start-menu/search surface, the two taskbars, and the desktop hosts.
pub open spec fn system_class(class: Seq<char>) -> bool {
    ||| class == "Windows.UI.Core.CoreWindow"@
    ||| class == "Shell_TrayWnd"@
    ||| class == "Shell_SecondaryTrayWnd"@
    ||| class == "Progman"@
    ||| class == "WorkerW"@
}

fn str_equal(a: &str, b: &str) -> (r: bool)
    ensures
        r == (a@ == b@),
{
    let sa = String::from_str(a);
    let sb = String::from_str(b);
    sa.eq(&sb)
}

/// Whether `class` is one of the built-in system classes.
pub fn is_system_class(class: &str) -> (r: bool)
    ensures
        r == system_class(class@),
{
    str_equal(class, "Windows.UI.Core.CoreWindow") || str_equal(class, "Shell_TrayWnd")
        || str_equal(class, "Shell_SecondaryTrayWnd") || str_equal(class, "Progman")
        || str_equal(class, "WorkerW")
}

/// The text the configured patterns are matched against: the window title
/// and class name, space-joined, title first.
pub open spec fn probe_text(title: Seq<char>, class: Seq<char>) -> Seq<char> {
    title + " "@ + class
}

/// Builds the probe text `"{title} {class}"`.
pub fn join_title_class(title: &str, class: &str) -> (r: String)
    ensures
        r@ == probe_text(title@, class@),
{
    let mut s = String::from_str(title);
    s.append(" ");
    s.append(class);
    s
}

pub const DEFAULT_BORDER_WIDTH: i32 = 3;

pub const DEFAULT_CORNER_RADIUS: i32 = 0;

/// The value a numeric setting takes: the given one where it is present and
/// representable as a non-negative `i32`, the default otherwise.
pub open spec fn effective_setting(given: Option<i64>, default: i32) -> i32 {
    match given {
        Some(v) => if 0 <= v <= i32::MAX as i64 {
            v as i32
        } else {
            default
        },
        None => default,
    }
}

/// The subsequence of `sources` whose patterns compile, in order: the
/// patterns a config keeps; the others are silently dropped.
pub open spec fn kept_patterns(sources: Seq<Seq<char>>) -> Seq<Seq<char>>
    decreases sources.len(),
{
    if sources.len() == 0 {
        Seq::empty()
    } else if pattern_compiles(sources.last()) {
        kept_patterns(sources.drop_last()).push(sources.last())
    } else {
        kept_patterns(sources.drop_last())
    }
}

/// Immutable process-wide configuration: border width and corner radius in
/// pixels at the reference DPI, and the exclusion patterns that compiled.
pub struct OverlayConfig {
    pub border_width: i32,
    pub corner_radius: i32,
    pub patterns: Vec<CompiledPattern>,
}

impl OverlayConfig {
    /// The source texts of the kept patterns, in configuration order.
    pub open spec fn spec_patterns(&self) -> Seq<Seq<char>> {
        self.patterns@.map_values(|p: CompiledPattern| p@)
    }

    /// Well-formedness: non-negative lengths, and every kept pattern
    /// compiles.
    pub open spec fn wf(&self) -> bool {
        &&& self.border_width >= 0
        &&& self.corner_radius >= 0
        &&& forall|i: int|
            0 <= i < self.spec_patterns().len() ==> pattern_compiles(
                #[trigger] self.spec_patterns()[i],
            )
    }

    /// Builds the configuration from the primitive settings read out of the
    /// config file: absent or unrepresentable numbers fall back to their
    /// defaults, and pattern strings that fail to compile are dropped.
    pub fn from_parts(
        border_width: Option<i64>,
        corner_radius: Option<i64>,
        pattern_sources: &Vec<String>,
    ) -> (c: OverlayConfig)
        ensures
            c.border_width == effective_setting(border_width, DEFAULT_BORDER_WIDTH),
            c.corner_radius == effective_setting(corner_radius, DEFAULT_CORNER_RADIUS),
            c.spec_patterns() == kept_patterns(pattern_sources@.map_values(|s: String| s@)),
            c.wf(),
    {
        let width: i32 = match border_width {
            Some(v) => if 0 <= v && v <= i32::MAX as i64 {
                v as i32
            } else {
                DEFAULT_BORDER_WIDTH
            },
            None => DEFAULT_BORDER_WIDTH,
        };
        let radius: i32 = match corner_radius {
            Some(v) => if 0 <= v && v <= i32::MAX as i64 {
                v as i32
            } else {
                DEFAULT_CORNER_RADIUS
            },
            None => DEFAULT_CORNER_RADIUS,
        };
        let ghost srcs = pattern_sources@.map_values(|s: String| s@);
        let mut patterns: Vec<CompiledPattern> = Vec::new();
        let mut i: usize = 0;
        while i < pattern_sources.len()
            invariant
                i <= pattern_sources.len(),
                srcs == pattern_sources@.map_values(|s: String| s@),
                patterns@.map_values(|p: CompiledPattern| p@) == kept_patterns(
                    srcs.subrange(0, i as int),
                ),
            decreases pattern_sources.len() - i,
        {
            let ghost prefix = srcs.subrange(0, i as int);
            let ghost next = srcs.subrange(0, i + 1 as int);
            proof {
                assert(next.drop_last() =~= prefix);
                assert(next.last() == srcs[i as int]);
            }
            match CompiledPattern::compile(pattern_sources[i].as_str()) {
                Some(p) => {
                    patterns.push(p);
                    proof {
                        assert(patterns@.map_values(|p: CompiledPattern| p@) =~= kept_patterns(
                            prefix,
                        ).push(srcs[i as int]));
                    }
                },
                None => {},
            }
            i += 1;
        }
        proof {
            assert(srcs.subrange(0, srcs.len() as int) =~= srcs);
            lemma_kept_patterns_compile(srcs);
        }
        OverlayConfig { border_width: width, corner_radius: radius, patterns }
    }

    /// Whether the window is exempt from decoration: its class is a built-in
    /// system class, or some kept pattern matches `"{title} {class}"`.
    pub fn is_exempt(&self, class_name: &str, title: &str) -> (r: bool)
        ensures
            r == spec_is_exempt(self.spec_patterns(), class_name@, title@),
    {
        if is_system_class(class_name) {
            return true;
        }
        let probe = join_title_class(title, class_name);
        let mut i: usize = 0;
        while i < self.patterns.len()
            invariant
                i <= self.patterns.len(),
                probe@ == probe_text(title@, class_name@),
                forall|j: int|
                    0 <= j < i ==> !pattern_matches(
                        #[trigger] self.spec_patterns()[j],
                        probe_text(title@, class_name@),
                    ),
            decreases self.patterns.len() - i,
        {
            if self.patterns[i].matches(probe.as_str()) {
                proof {
                    assert(self.spec_patterns()[i as int] == self.patterns@[i as int]@);
                    assert(pattern_matches(
                        self.spec_patterns()[i as int],
                        probe_text(title@, class_name@),
                    ));
                }
                return true;
            }
            i += 1;
        }
        false
    }
}

/// Exemption as a predicate over the kept pattern texts: a built-in system
/// class, or at least one kept pattern matching the probe text.
pub open spec fn spec_is_exempt(patterns: Seq<Seq<char>>, class: Seq<char>, title: Seq<char>) -> bool {
    system_class(class) || exists|i: int|
        0 <= i < patterns.len() && pattern_matches(#[trigger] patterns[i], probe_text(title, class))
}

/// A window whose class is one of the built-in system classes is exempt,
/// whatever patterns are configured.
pub proof fn lemma_system_class_always_exempt(
    patterns: Seq<Seq<char>>,
    class: Seq<char>,
    title: Seq<char>,
)
    requires
        system_class(class),
    ensures
        spec_is_exempt(patterns, class, title),
{
}

/// Every pattern a config keeps compiles: a pattern string that failed to
/// compile is dropped at load time and can never cause a match.
pub proof fn lemma_kept_patterns_compile(sources: Seq<Seq<char>>)
    ensures
        forall|i: int|
            0 <= i < kept_patterns(sources).len() ==> pattern_compiles(
                #[trigger] kept_patterns(sources)[i],
            ),
    decreases sources.len(),
{
    if sources.len() > 0 {
        lemma_kept_patterns_compile(sources.drop_last());
        let kr = kept_patterns(sources.drop_last());
        let ks = kept_patterns(sources);
        assert forall|i: int| 0 <= i < ks.len() implies pattern_compiles(ks[i]) by {
            if pattern_compiles(sources.last()) && i == kr.len() {
                assert(ks[i] == sources.last());
            } else {
                assert(ks[i] == kr[i]);
            }
        }
    }
}

/// For a non-system window, a config built from `sources` reports exemption
/// exactly when some pattern string that compiles matches the probe text:
/// invalid pattern strings never cause a match.
pub proof fn lemma_exempt_iff_valid_pattern_matches(
    sources: Seq<Seq<char>>,
    class: Seq<char>,
    title: Seq<char>,
)
    requires
        !system_class(class),
    ensures
        spec_is_exempt(kept_patterns(sources), class, title) <==> exists|j: int|
            0 <= j < sources.len() && pattern_compiles(#[trigger] sources[j]) && pattern_matches(
                sources[j],
                probe_text(title, class),
            ),
    decreases sources.len(),
{
    let probe = probe_text(title, class);
    if sources.len() == 0 {
    } else {
        let rest = sources.drop_last();
        let last = sources.last();
        lemma_exempt_iff_valid_pattern_matches(rest, class, title);
        let kr = kept_patterns(rest);
        let ks = kept_patterns(sources);
        if spec_is_exempt(ks, class, title) {
            let i = choose|i: int|
                0 <= i < ks.len() && pattern_matches(#[trigger] ks[i], probe);
            if pattern_compiles(last) && i == kr.len() {
                assert(ks[i] == last);
                assert(pattern_compiles(sources[sources.len() - 1]) && pattern_matches(
                    sources[sources.len() - 1],
                    probe,
                ));
            } else {
                assert(ks[i] == kr[i]);
                assert(spec_is_exempt(kr, class, title));
                let j = choose|j: int|
                    0 <= j < rest.len() && pattern_compiles(#[trigger] rest[j]) && pattern_matches(
                        rest[j],
                        probe,
                    );
                assert(sources[j] == rest[j]);
                assert(pattern_compiles(sources[j]) && pattern_matches(sources[j], probe));
            }
        }
        if exists|j: int|
            0 <= j < sources.len() && pattern_compiles(#[trigger] sources[j]) && pattern_matches(
                sources[j],
                probe,
            ) {
            let j = choose|j: int|
                0 <= j < sources.len() && pattern_compiles(#[trigger] sources[j])
                    && pattern_matches(sources[j], probe);
            if j < rest.len() {
                assert(rest[j] == sources[j]);
                assert(pattern_compiles(rest[j]) && pattern_matches(rest[j], probe));
                assert(spec_is_exempt(kr, class, title));
                let i = choose|i: int|
                    0 <= i < kr.len() && pattern_matches(#[trigger] kr[i], probe);
                assert(ks[i] == kr[i]);
                assert(pattern_matches(ks[i], probe));
            } else {
                assert(sources[j] == last);
                assert(ks.last() == last);
                assert(pattern_matches(ks[ks.len() - 1], probe));
            }
        }
    }
}

} // verus!
