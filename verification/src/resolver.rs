//! Editor resolution.
//!
//! The editor command is taken from the first source in this chain that
//! provides a non-empty value: the `GIT_EDITOR` environment variable, then
//! `VISUAL`, then `EDITOR`, then the version-control configuration entry
//! `core.editor`, and finally the literal `vi`.  An environment variable that
//! is set to the empty string counts as absent and falls through.

use vstd::prelude::*;

verus! {

/// Whether an optional environment value counts as present: set and non-empty.
pub open spec fn env_present(v: Option<Seq<char>>) -> bool {
    match v {
        Some(s) => s.len() > 0,
        None => false,
    }
}

/// The view of an optional owned string.
pub open spec fn opt_chars(o: Option<String>) -> Option<Seq<char>> {
    match o {
        Some(s) => Some(s@),
        None => None,
    }
}

/// The editor that the precedence chain selects: `GIT_EDITOR`, then `VISUAL`,
/// then `EDITOR` (a set-but-empty value falls through), then the
/// configuration entry, and finally the literal `vi`.
pub open spec fn resolved_editor(
    git_editor: Option<Seq<char>>,
    visual: Option<Seq<char>>,
    editor: Option<Seq<char>>,
    config: Option<Seq<char>>,
) -> Seq<char> {
    if env_present(git_editor) {
        git_editor.unwrap()
    } else if env_present(visual) {
        visual.unwrap()
    } else if env_present(editor) {
        editor.unwrap()
    } else {
        match config {
            Some(c) => c,
            None => "vi"@,
        }
    }
}

/// Whether a character has the Unicode `White_Space` property, the notion of
/// whitespace that surrounding-whitespace trimming goes by.
pub open spec fn is_space(c: char) -> bool {
    c == '\u{0009}' || c == '\u{000A}' || c == '\u{000B}' || c == '\u{000C}' || c == '\u{000D}'
        || c == '\u{0020}' || c == '\u{0085}' || c == '\u{00A0}' || c == '\u{1680}'
        || c == '\u{2000}' || c == '\u{2001}' || c == '\u{2002}' || c == '\u{2003}'
        || c == '\u{2004}' || c == '\u{2005}' || c == '\u{2006}' || c == '\u{2007}'
        || c == '\u{2008}' || c == '\u{2009}' || c == '\u{200A}' || c == '\u{2028}'
        || c == '\u{2029}' || c == '\u{202F}' || c == '\u{205F}' || c == '\u{3000}'
}

/// Whether `c` counts as whitespace for trimming.
pub fn is_space_char(c: char) -> (r: bool)
    ensures
        r == is_space(c),
{
    c == '\u{0009}' || c == '\u{000A}' || c == '\u{000B}' || c == '\u{000C}' || c == '\u{000D}'
        || c == '\u{0020}' || c == '\u{0085}' || c == '\u{00A0}' || c == '\u{1680}'
        || c == '\u{2000}' || c == '\u{2001}' || c == '\u{2002}' || c == '\u{2003}'
        || c == '\u{2004}' || c == '\u{2005}' || c == '\u{2006}' || c == '\u{2007}'
        || c == '\u{2008}' || c == '\u{2009}' || c == '\u{200A}' || c == '\u{2028}'
        || c == '\u{2029}' || c == '\u{202F}' || c == '\u{205F}' || c == '\u{3000}'
}

/// `s` with its leading whitespace dropped.
pub open spec fn trim_start(s: Seq<char>) -> Seq<char>
    decreases s.len(),
{
    if s.len() > 0 && is_space(s.first()) {
        trim_start(s.drop_first())
    } else {
        s
    }
}

/// `s` with its trailing whitespace dropped.
pub open spec fn trim_end(s: Seq<char>) -> Seq<char>
    decreases s.len(),
{
    if s.len() > 0 && is_space(s.last()) {
        trim_end(s.drop_last())
    } else {
        s
    }
}

/// `s` with surrounding whitespace dropped.
pub open spec fn trimmed(s: Seq<char>) -> Seq<char> {
    trim_end(trim_start(s))
}

/// Drop surrounding whitespace from a string.
pub fn trim_whitespace(s: &str) -> (r: String)
    ensures
        r@ == trimmed(s@),
{
    let n = s.unicode_len();
    let mut start: usize = 0;
    proof {
        assert(s@.skip(0) =~= s@);
    }
    while start < n && is_space_char(s.get_char(start))
        invariant
            n == s@.len(),
            start <= n,
            trim_start(s@) == trim_start(s@.skip(start as int)),
        decreases n - start,
    {
        proof {
            assert(s@.skip(start as int).first() == s@[start as int]);
            assert(s@.skip(start as int).drop_first() =~= s@.skip(start as int + 1));
        }
        start = start + 1;
    }
    proof {
        assert(s@.skip(start as int) =~= s@.subrange(start as int, n as int));
        if start < n {
            assert(s@.skip(start as int).first() == s@[start as int]);
            assert(trim_start(s@.skip(start as int)) == s@.skip(start as int));
        } else {
            assert(s@.skip(start as int).len() == 0);
        }
        assert(trim_start(s@) == s@.subrange(start as int, n as int));
    }
    let mut end: usize = n;
    while end > start && is_space_char(s.get_char(end - 1))
        invariant
            n == s@.len(),
            start <= end <= n,
            trim_end(trim_start(s@)) == trim_end(s@.subrange(start as int, end as int)),
        decreases end,
    {
        proof {
            let u = s@.subrange(start as int, end as int);
            assert(u.last() == s@[end - 1]);
            assert(u.drop_last() =~= s@.subrange(start as int, end as int - 1));
        }
        end = end - 1;
    }
    proof {
        let u = s@.subrange(start as int, end as int);
        if end > start {
            assert(u.last() == s@[end - 1]);
            assert(trim_end(u) == u);
        } else {
            assert(u.len() == 0);
        }
        assert(trimmed(s@) == s@.subrange(start as int, end as int));
    }
    s.substring_char(start, end).to_owned()
}

/// The configuration value that a raw lookup output denotes: the output
/// trimmed of surrounding whitespace, when the lookup command succeeded and
/// the trimmed text is non-blank; absent otherwise.
pub open spec fn config_value_of(success: bool, raw: Seq<char>) -> Option<Seq<char>> {
    if success && trimmed(raw).len() > 0 {
        Some(trimmed(raw))
    } else {
        None
    }
}

/// Turn the raw output of the configuration lookup command into the value it
/// denotes: `success` says whether the command exited successfully, `raw` is
/// what it printed.
pub fn clean_config_value(success: bool, raw: &str) -> (r: Option<String>)
    ensures
        opt_chars(r) == config_value_of(success, raw@),
{
    if !success {
        return None;
    }
    let t = trim_whitespace(raw);
    if t.as_str().is_empty() {
        None
    } else {
        Some(t)
    }
}

/// Capability that looks up the version-control configuration's editor entry.
///
/// An implementation answers `None` when the lookup fails, the underlying
/// command exits unsuccessfully, or the entry is blank, so that resolution
/// falls through to the default.  `spec_config_value` is the value the
/// implementation stands for; `get` returns exactly that value.
pub trait GitConfigEditor {
    open spec fn spec_config_value(&self) -> Option<Seq<char>> {
        None
    }

    fn get(&self) -> (r: Option<String>)
        ensures
            opt_chars(r) == self.spec_config_value(),
    ;
}

/// Select the editor from already-fetched values of the three environment
/// variables and the configuration entry.
pub fn resolve_editor(
    git_editor: Option<String>,
    visual: Option<String>,
    editor: Option<String>,
    config: Option<String>,
) -> (r: String)
    ensures
        r@ == resolved_editor(
            opt_chars(git_editor),
            opt_chars(visual),
            opt_chars(editor),
            opt_chars(config),
        ),
{
    if let Some(e) = git_editor {
        if !e.as_str().is_empty() {
            return e;
        }
    }
    if let Some(e) = visual {
        if !e.as_str().is_empty() {
            return e;
        }
    }
    if let Some(e) = editor {
        if !e.as_str().is_empty() {
            return e;
        }
    }
    if let Some(e) = config {
        return e;
    }
    String::from_str("vi")
}

/// Resolve the editor, consulting the configuration capability only when no
/// environment variable decides.
pub fn get_editor<C: GitConfigEditor>(
    config: &C,
    git_editor: Option<String>,
    visual: Option<String>,
    editor: Option<String>,
) -> (r: String)
    ensures
        r@ == resolved_editor(
            opt_chars(git_editor),
            opt_chars(visual),
            opt_chars(editor),
            config.spec_config_value(),
        ),
{
    if let Some(e) = git_editor {
        if !e.as_str().is_empty() {
            return e;
        }
    }
    if let Some(e) = visual {
        if !e.as_str().is_empty() {
            return e;
        }
    }
    if let Some(e) = editor {
        if !e.as_str().is_empty() {
            return e;
        }
    }
    if let Some(e) = config.get() {
        return e;
    }
    String::from_str("vi")
}

/// `GIT_EDITOR`, when set and non-empty, decides the editor whatever the
/// other sources hold.
pub proof fn lemma_git_editor_wins(
    git_editor: Seq<char>,
    visual: Option<Seq<char>>,
    editor: Option<Seq<char>>,
    config: Option<Seq<char>>,
)
    requires
        git_editor.len() > 0,
    ensures
        resolved_editor(Some(git_editor), visual, editor, config) == git_editor,
{
}

/// With `GIT_EDITOR` absent or empty, a set and non-empty `VISUAL` decides.
pub proof fn lemma_visual_wins(
    git_editor: Option<Seq<char>>,
    visual: Seq<char>,
    editor: Option<Seq<char>>,
    config: Option<Seq<char>>,
)
    requires
        !env_present(git_editor),
        visual.len() > 0,
    ensures
        resolved_editor(git_editor, Some(visual), editor, config) == visual,
{
}

/// With `GIT_EDITOR` and `VISUAL` absent or empty, a set and non-empty
/// `EDITOR` decides.
pub proof fn lemma_editor_wins(
    git_editor: Option<Seq<char>>,
    visual: Option<Seq<char>>,
    editor: Seq<char>,
    config: Option<Seq<char>>,
)
    requires
        !env_present(git_editor),
        !env_present(visual),
        editor.len() > 0,
    ensures
        resolved_editor(git_editor, visual, Some(editor), config) == editor,
{
}

/// With all three environment variables absent or empty, a present and
/// non-blank configuration entry decides.
pub proof fn lemma_config_wins(
    git_editor: Option<Seq<char>>,
    visual: Option<Seq<char>>,
    editor: Option<Seq<char>>,
    config: Seq<char>,
)
    requires
        !env_present(git_editor),
        !env_present(visual),
        !env_present(editor),
        config.len() > 0,
    ensures
        resolved_editor(git_editor, visual, editor, Some(config)) == config,
{
}

/// With every source absent, resolution falls back to `vi`.
pub proof fn lemma_fallback_vi(
    git_editor: Option<Seq<char>>,
    visual: Option<Seq<char>>,
    editor: Option<Seq<char>>,
)
    requires
        !env_present(git_editor),
        !env_present(visual),
        !env_present(editor),
    ensures
        resolved_editor(git_editor, visual, editor, None) == "vi"@,
{
}

/// An environment variable set to the empty string resolves exactly as an
/// unset one, at every position in the chain.
pub proof fn lemma_empty_env_is_unset(
    git_editor: Option<Seq<char>>,
    visual: Option<Seq<char>>,
    editor: Option<Seq<char>>,
    config: Option<Seq<char>>,
)
    ensures
        resolved_editor(Some(Seq::empty()), visual, editor, config) == resolved_editor(
            None,
            visual,
            editor,
            config,
        ),
        resolved_editor(git_editor, Some(Seq::empty()), editor, config) == resolved_editor(
            git_editor,
            None,
            editor,
            config,
        ),
        resolved_editor(git_editor, visual, Some(Seq::empty()), config) == resolved_editor(
            git_editor,
            visual,
            None,
            config,
        ),
{
}

} // verus!
