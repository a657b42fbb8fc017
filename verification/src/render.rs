//! Rendering to HTML: the buffer that the output goes to, and the items
//! that can be written to it.

use vstd::prelude::*;

verus! {

/// What stands for a character in HTML text: an entity for the five
/// characters that mark up, the character itself for every other.
pub open spec fn escape_char(c: char) -> Seq<char> {
    if c == '>' {
        "&gt;"@
    } else if c == '<' {
        "&lt;"@
    } else if c == '&' {
        "&amp;"@
    } else if c == '\'' {
        "&#39;"@
    } else if c == '"' {
        "&quot;"@
    } else {
        seq![c]
    }
}

/// A text with every character escaped for HTML.
pub open spec fn escaped(text: Seq<char>) -> Seq<char>
    decreases text.len(),
{
    if text.len() == 0 {
        Seq::empty()
    } else {
        escaped(text.drop_last()) + escape_char(text.last())
    }
}

/// The HTML written so far.
#[derive(Debug)]
pub struct HtmlContext {
    buffer: String,
}

impl View for HtmlContext {
    type V = Seq<char>;

    closed spec fn view(&self) -> Seq<char> {
        self.buffer@
    }
}

impl HtmlContext {
    /// A context into which nothing was written.
    pub fn new() -> (ctx: HtmlContext)
        ensures
            ctx@ == Seq::<char>::empty(),
    {
        HtmlContext { buffer: String::new() }
    }

    /// The HTML written so far.
    pub fn buffer(&self) -> (r: &str)
        ensures
            r@ == self@,
    {
        self.buffer.as_str()
    }

    /// Writes markup as it is.
    pub fn push_raw(&mut self, markup: &str)
        ensures
            final(self)@ == old(self)@ + markup@,
    {
        self.buffer.append(markup);
    }

    /// Writes a text, escaped.
    pub fn push_escaped(&mut self, text: &str)
        ensures
            final(self)@ == old(self)@ + escaped(text@),
    {
        let n = text.unicode_len();
        let mut i: usize = 0;
        assert(text@.take(0) =~= Seq::<char>::empty());
        assert(self@ =~= old(self)@ + escaped(text@.take(0)));
        while i < n
            invariant
                i <= n,
                n == text@.len(),
                self@ == old(self)@ + escaped(text@.take(i as int)),
            decreases n - i,
        {
            let c = text.get_char(i);
            let ghost before = self@;
            proof {
                assert(text@.take(i + 1).drop_last() =~= text@.take(i as int));
                assert(text@.take(i + 1).last() == c);
            }
            if c == '>' {
                self.buffer.append("&gt;");
            } else if c == '<' {
                self.buffer.append("&lt;");
            } else if c == '&' {
                self.buffer.append("&amp;");
            } else if c == '\'' {
                self.buffer.append("&#39;");
            } else if c == '"' {
                self.buffer.append("&quot;");
            } else {
                let one = text.substring_char(i, i + 1);
                assert(one@ =~= seq![c]);
                self.buffer.append(one);
            }
            assert(self@ =~= old(self)@ + (escaped(text@.take(i as int)) + escape_char(c)));
            i += 1;
        }
        assert(text@.take(n as int) =~= text@);
    }
}

/// Something that can be written to an HTML context.
pub trait ItemRender {
    /// What the item is written as.
    spec fn rendered(&self) -> Seq<char>;

    /// Writes the item at the end of the context.
    fn render(&self, ctx: &mut HtmlContext)
        ensures
            final(ctx)@ == old(ctx)@ + self.rendered(),
    ;
}

impl ItemRender for &str {
    /// A string is written as text: escaped.
    open spec fn rendered(&self) -> Seq<char> {
        escaped(self@)
    }

    #[inline]
    fn render(&self, ctx: &mut HtmlContext) {
        ctx.push_escaped(self);
    }
}

} // verus!
