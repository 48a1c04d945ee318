//! A single section of a status bar: text content with optional decorative
//! separators around it.

use vstd::prelude::*;
use vstd::string::StrSliceExecFns;
use crate::measure::{display_width, measure_text};
use crate::style::{plain, Style};

verus! {

/// The characters of an optional separator, empty when absent.
pub open spec fn opt_text(o: Option<String>) -> Seq<char> {
    match o {
        Some(s) => s@,
        None => Seq::empty(),
    }
}

/// A representation of a single section in a status bar, including optional
/// decorators (pre/post separators) around the content and optional visual
/// attributes.
#[derive(Debug)]
pub struct StatusBarSection {
    pub pre_separator: Option<String>,
    pub content: String,
    pub post_separator: Option<String>,
    pub style: Option<Style>,
}

impl StatusBarSection {
    /// The full text of the section: pre-separator, content, post-separator.
    pub open spec fn text(self) -> Seq<char> {
        opt_text(self.pre_separator) + self.content@ + opt_text(self.post_separator)
    }

    /// No separators, empty content, no attributes.
    pub open spec fn is_blank(self) -> bool {
        &&& self.pre_separator is None
        &&& self.content@ == Seq::<char>::empty()
        &&& self.post_separator is None
        &&& self.style is None
    }

    /// The attributes rendering applies to the section's text: the
    /// configured ones, or none.
    pub open spec fn effective_style(self) -> Style {
        match self.style {
            Some(s) => s,
            None => plain(),
        }
    }

    /// The number of columns the section asks the layout for: its display
    /// width, capped at the largest possible region width.
    pub open spec fn requested_width(self) -> int {
        vstd::math::min(display_width(self.text()) as int, 65535)
    }

    /// Associates a pre-separator with the section.
    pub fn pre_separator(self, separator: &str) -> (r: Self)
        ensures
            opt_text(r.pre_separator) == separator@,
            r.pre_separator is Some,
            r.content == self.content,
            r.post_separator == self.post_separator,
            r.style == self.style,
    {
        StatusBarSection {
            pre_separator: Some(separator.to_owned()),
            content: self.content,
            post_separator: self.post_separator,
            style: self.style,
        }
    }

    /// Sets the main content of the section.
    pub fn content(self, content: &str) -> (r: Self)
        ensures
            r.content@ == content@,
            r.pre_separator == self.pre_separator,
            r.post_separator == self.post_separator,
            r.style == self.style,
    {
        StatusBarSection {
            pre_separator: self.pre_separator,
            content: content.to_owned(),
            post_separator: self.post_separator,
            style: self.style,
        }
    }

    /// Associates a post-separator with the section.
    pub fn post_separator(self, separator: &str) -> (r: Self)
        ensures
            opt_text(r.post_separator) == separator@,
            r.post_separator is Some,
            r.content == self.content,
            r.pre_separator == self.pre_separator,
            r.style == self.style,
    {
        StatusBarSection {
            pre_separator: self.pre_separator,
            content: self.content,
            post_separator: Some(separator.to_owned()),
            style: self.style,
        }
    }

    /// Sets the visual attributes of the section.
    pub fn style(self, style: Style) -> (r: Self)
        ensures
            r.style == Some(style),
            r.content == self.content,
            r.pre_separator == self.pre_separator,
            r.post_separator == self.post_separator,
    {
        StatusBarSection {
            pre_separator: self.pre_separator,
            content: self.content,
            post_separator: self.post_separator,
            style: Some(style),
        }
    }

    /// Returns the attributes rendering applies to the section's text.
    pub fn effective(&self) -> (s: Style)
        ensures
            s == self.effective_style(),
    {
        match &self.style {
            Some(s) => *s,
            None => Style { fg: None, bg: None, bold: false },
        }
    }

    /// Returns the section's full text as characters, in order.
    pub fn text_chars(&self) -> (v: Vec<char>)
        ensures
            v@ == self.text(),
    {
        let mut v: Vec<char> = Vec::new();
        if let Some(p) = &self.pre_separator {
            push_str_chars(&mut v, p.as_str());
        }
        push_str_chars(&mut v, self.content.as_str());
        if let Some(p) = &self.post_separator {
            push_str_chars(&mut v, p.as_str());
        }
        proof {
            assert(v@ =~= self.text());
        }
        v
    }

    /// Measures the columns the section asks the layout for.
    pub fn width16(&self) -> (w: u16)
        ensures
            w as int == self.requested_width(),
    {
        let pre = match &self.pre_separator {
            Some(s) => s.as_str(),
            None => "",
        };
        let post = match &self.post_separator {
            Some(s) => s.as_str(),
            None => "",
        };
        let w = measure_text(pre, self.content.as_str(), post);
        proof {
            reveal_strlit("");
            assert(pre@ + self.content@ + post@ =~= self.text());
        }
        if w >= 65535 {
            65535
        } else {
            w as u16
        }
    }
}

impl Default for StatusBarSection {
    /// A blank section: no separators, empty content.
    fn default() -> (r: Self)
        ensures
            r.is_blank(),
    {
        StatusBarSection {
            pre_separator: None,
            content: String::new(),
            post_separator: None,
            style: None,
        }
    }
}

impl<'a> From<&'a str> for StatusBarSection {
    /// A section whose content is the given text, with no separators and no
    /// attributes.
    fn from(s: &'a str) -> (r: Self)
        ensures
            r.content@ == s@,
            r.pre_separator is None,
            r.post_separator is None,
            r.style is None,
    {
        StatusBarSection {
            pre_separator: None,
            content: s.to_owned(),
            post_separator: None,
            style: None,
        }
    }
}

impl<'a> vstd::std_specs::convert::FromSpecImpl<&'a str> for StatusBarSection {
    open spec fn obeys_from_spec() -> bool {
        false
    }

    open spec fn from_spec(v: &'a str) -> Self {
        arbitrary()
    }
}

/// Appends the characters of `s` to `v`, in order.
fn push_str_chars(v: &mut Vec<char>, s: &str)
    ensures
        final(v)@ == old(v)@ + s@,
{
    let n = s.unicode_len();
    let mut i: usize = 0;
    while i < n
        invariant
            i <= n,
            n == s@.len(),
            v@ == old(v)@ + s@.subrange(0, i as int),
        decreases n - i,
    {
        let c = s.get_char(i);
        v.push(c);
        proof {
            assert(old(v)@ + s@.subrange(0, i as int + 1) =~= (old(v)@ + s@.subrange(0, i as int)).push(s@[i as int]));
        }
        i += 1;
    }
    proof {
        assert(s@.subrange(0, n as int) =~= s@);
        assert(v@ =~= old(v)@ + s@);
    }
}

} // verus!
