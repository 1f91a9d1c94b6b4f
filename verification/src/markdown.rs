//! Markdown rendering, done by the `spongedown` crate.
use vstd::prelude::*;

verus! {

/// The HTML that `spongedown` renders from the markdown `text`, or `None`
/// where it reports an error. Left unstated: markdown rendering takes pages
/// to describe.
pub uninterp spec fn markdown_html(text: Seq<char>) -> Option<Seq<char>>;

/// The longest text that is rendered.
pub const MAX_MARKDOWN_LEN: usize = 1024;

/// Whether `s` has three backquotes or three tildes in a row at `i`: the
/// start of a fenced code block.
pub open spec fn fence_at(s: Seq<char>, i: int) -> bool {
    &&& 0 <= i
    &&& i + 2 < s.len()
    &&& ((s[i] == '`' && s[i + 1] == '`' && s[i + 2] == '`') || (s[i] == '~' && s[i + 1] == '~'
        && s[i + 2] == '~'))
}

/// Whether `s` is text that the renderer is given: ASCII, at most
/// `MAX_MARKDOWN_LEN` characters, and without fenced code blocks.
///
/// The parser opens one node per nesting marker (one block quote per `>`,
/// one list per item marker, one emphasis per delimiter), and the renderer
/// walks the node tree recursively, so a long text can nest deep enough to
/// exhaust the stack; the length bound keeps that depth small. Fenced code
/// blocks are where the renderer unwraps the UTF-8 of a block's info and
/// text and hands `bob` blocks to the diagram renderer; without them, and
/// with ASCII text, neither is reached.
pub open spec fn renders_safely(s: Seq<char>) -> bool {
    &&& s.len() <= MAX_MARKDOWN_LEN
    &&& forall|i: int| 0 <= i < s.len() ==> (#[trigger] s[i] as u32) < 128
    &&& forall|i: int| !fence_at(s, i)
}

/// Which texts are rendered: every ASCII text (control characters such as
/// newlines included) of at most `MAX_MARKDOWN_LEN` characters that has no
/// three backquotes and no three tildes in a row; and no other text.
pub proof fn lemma_rendered_texts(s: Seq<char>)
    ensures
        renders_safely(s) <==> (s.len() <= MAX_MARKDOWN_LEN && (forall|i: int|
            0 <= i < s.len() ==> (s[i] as u32) < 128) && !(exists|i: int|
            #![trigger s[i]]
            0 <= i && i + 2 < s.len() && s[i] == s[i + 1] && s[i + 1] == s[i + 2] && (s[i] == '`'
                || s[i] == '~'))),
{
    let has_fence = exists|i: int|
        #![trigger s[i]]
        0 <= i && i + 2 < s.len() && s[i] == s[i + 1] && s[i + 1] == s[i + 2] && (s[i] == '`'
            || s[i] == '~');
    if has_fence {
        let i = choose|i: int|
            #![trigger s[i]]
            0 <= i && i + 2 < s.len() && s[i] == s[i + 1] && s[i + 1] == s[i + 2] && (s[i] == '`'
                || s[i] == '~');
        assert(fence_at(s, i));
    } else {
        assert forall|i: int| !fence_at(s, i) by {
            if fence_at(s, i) {
                assert(0 <= i && i + 2 < s.len() && s[i] == s[i + 1] && s[i + 1] == s[i + 2] && (
                s[i] == '`' || s[i] == '~'));
            }
        }
    }
}

/// Calls `spongedown::parse` on `text`, which must be text that renders
/// safely. Trusted to return what [`markdown_html`] names for that text,
/// and to succeed: `parse` fails only where writing the HTML into its
/// in-memory buffer fails, which writing into a `Vec<u8>` does not, or
/// where that HTML is not UTF-8, which for ASCII text (whose entities are
/// decoded to whole characters) it is. Nothing is said of the HTML itself.
#[verifier::external_body]
pub(crate) fn render_markdown(text: &str) -> (html: String)
    requires
        renders_safely(text@),
    ensures
        markdown_html(text@) == Some(html@),
{
    spongedown::parse(text).unwrap()
}

/// Whether `text` renders safely.
pub fn is_safe_markdown(text: &str) -> (safe: bool)
    ensures
        safe == renders_safely(text@),
{
    let len = text.unicode_len();
    if len > MAX_MARKDOWN_LEN {
        return false;
    }
    let mut i: usize = 0;
    while i < len
        invariant
            len == text@.len(),
            len <= MAX_MARKDOWN_LEN,
            i <= len,
            forall|j: int| 0 <= j < i ==> (#[trigger] text@[j] as u32) < 128,
            forall|j: int| 0 <= j < i ==> !fence_at(text@, j),
        decreases len - i,
    {
        let c = text.get_char(i);
        if (c as u32) >= 128 {
            return false;
        }
        if i + 2 < len && (c == '`' || c == '~') {
            let c1 = text.get_char(i + 1);
            let c2 = text.get_char(i + 2);
            if c1 == c && c2 == c {
                assert(fence_at(text@, i as int));
                return false;
            }
        }
        i = i + 1;
    }
    assert forall|j: int| !fence_at(text@, j) by {
        if 0 <= j < len {
            assert(!fence_at(text@, j));
        }
    }
    true
}

} // verus!
