use vstd::prelude::*;
use crate::lines::to_chars;

verus! {

/// A tagged element: a name, attributes in the order they were set, an
/// optional body, and child elements in the order they were appended.
#[derive(Debug)]
pub struct Element {
    pub name: String,
    pub attr: Vec<(String, String)>,
    pub children: Vec<Element>,
    pub text: Option<String>,
}

/// An element as plain values.
pub struct Markup {
    pub name: Seq<char>,
    pub attrs: Seq<(Seq<char>, Seq<char>)>,
    pub children: Seq<Markup>,
    pub text: Option<Seq<char>>,
}

/// The attributes of an element as plain values.
pub open spec fn attr_views(attrs: Seq<(String, String)>) -> Seq<(Seq<char>, Seq<char>)> {
    attrs.map_values(|a: (String, String)| (a.0@, a.1@))
}

/// An element as plain values, its children included.
pub open spec fn markup_of(e: Element) -> Markup
    decreases e,
{
    Markup {
        name: e.name@,
        attrs: attr_views(e.attr@),
        children: Seq::new(
            e.children@.len(),
            |i: int|
                if 0 <= i < e.children@.len() {
                    markup_of(e.children@[i])
                } else {
                    arbitrary()
                },
        ),
        text: match e.text {
            Some(t) => Some(t@),
            None => None,
        },
    }
}

impl View for Element {
    type V = Markup;

    open spec fn view(&self) -> Markup {
        markup_of(*self)
    }
}

/// An element with a name and nothing else.
pub open spec fn bare(name: Seq<char>) -> Markup {
    Markup { name, attrs: Seq::empty(), children: Seq::empty(), text: None }
}

/// How one character of plain text is written in a body.
pub open spec fn escape_char(c: char) -> Seq<char> {
    if c == '&' {
        "&amp;"@
    } else if c == '<' {
        "&lt;"@
    } else if c == '>' {
        "&gt;"@
    } else {
        seq![c]
    }
}

/// Plain text as it is written in a body: `&`, `<` and `>` are replaced, all
/// else is kept.
pub open spec fn escape(s: Seq<char>) -> Seq<char>
    decreases s.len(),
{
    if s.len() == 0 {
        Seq::empty()
    } else {
        escape(s.drop_last()) + escape_char(s.last())
    }
}

/// Text wrapped so that a reader takes it as it is.
pub open spec fn cdata_wrap(s: Seq<char>) -> Seq<char> {
    "<![CDATA["@ + s + "]]>"@
}

/// The attributes as they are written in an opening tag: each on a line of
/// its own, indented by two spaces, as `key="value"`.
pub open spec fn render_attrs(attrs: Seq<(Seq<char>, Seq<char>)>) -> Seq<char>
    decreases attrs.len(),
{
    if attrs.len() == 0 {
        Seq::empty()
    } else {
        render_attrs(attrs.drop_last()) + "\n  "@ + attrs.last().0 + "=\""@ + attrs.last().1
            + "\""@
    }
}

/// The opening tag: `<name>` without attributes; with attributes the name,
/// the attributes, and `>` on a line of its own.
pub open spec fn open_tag(m: Markup) -> Seq<char> {
    if m.attrs.len() == 0 {
        "<"@ + m.name + ">"@
    } else {
        "<"@ + m.name + render_attrs(m.attrs) + "\n>"@
    }
}

/// The closing tag, on a line of its own unless the element has neither
/// attributes nor children.
pub open spec fn close_tag(m: Markup) -> Seq<char> {
    if m.children.len() == 0 && m.attrs.len() == 0 {
        "</"@ + m.name + ">"@
    } else {
        "\n</"@ + m.name + ">"@
    }
}

/// The body as written, empty when there is none.
pub open spec fn body(m: Markup) -> Seq<char> {
    match m.text {
        Some(t) => t,
        None => Seq::empty(),
    }
}

/// An element as text: opening tag, body, each child on a new line, closing
/// tag.
pub open spec fn render(m: Markup) -> Seq<char>
    decreases m,
{
    open_tag(m) + body(m) + render_all(m.children) + close_tag(m)
}

/// Elements as text, each after a line feed.
pub open spec fn render_all(cs: Seq<Markup>) -> Seq<char>
    decreases cs,
{
    if cs.len() == 0 {
        Seq::empty()
    } else {
        render_all(cs.drop_last()) + seq!['\n'] + render(cs.last())
    }
}

/// Writes plain text as it stands in a body.
pub fn escape_text(s: &str) -> (out: String)
    ensures
        out@ == escape(s@),
{
    let chars = to_chars(s);
    let mut out = String::new();
    let mut i: usize = 0;
    assert(chars@.take(0) =~= Seq::<char>::empty());
    while i < chars.len()
        invariant
            i <= chars@.len(),
            out@ == escape(chars@.take(i as int)),
        decreases chars@.len() - i,
    {
        let c = chars[i];
        assert(chars@.take(i + 1).drop_last() =~= chars@.take(i as int));
        if c == '&' {
            out.append("&amp;");
        } else if c == '<' {
            out.append("&lt;");
        } else if c == '>' {
            out.append("&gt;");
        } else {
            out.push(c);
            assert(out@ =~= escape(chars@.take(i as int)) + seq![c]);
        }
        i += 1;
    }
    assert(chars@.take(chars@.len() as int) =~= chars@);
    out
}

impl Element {
    /// An element with the given name and nothing else.
    pub fn new(name: &str) -> (out: Element)
        ensures
            out@ == bare(name@),
    {
        let out = Element {
            name: name.to_owned(),
            attr: Vec::new(),
            children: Vec::new(),
            text: None,
        };
        assert(out@.attrs =~= Seq::empty());
        assert(out@.children =~= Seq::empty());
        out
    }

    /// Adds an attribute after those already set.
    pub fn attr(self, key: &str, value: &str) -> (out: Element)
        ensures
            out@ == (Markup { attrs: self@.attrs.push((key@, value@)), ..self@ }),
    {
        let mut out = self;
        out.attr.push((key.to_owned(), value.to_owned()));
        assert(out@.attrs =~= self@.attrs.push((key@, value@)));
        assert(out@.children =~= self@.children);
        out
    }

    /// Adds an attribute when there is a value for it, and changes nothing
    /// when there is none.
    pub fn attr_if_some(self, key: &str, value: Option<&str>) -> (out: Element)
        ensures
            out@ == match value {
                Some(v) => Markup { attrs: self@.attrs.push((key@, v@)), ..self@ },
                None => self@,
            },
    {
        match value {
            Some(v) => self.attr(key, v),
            None => self,
        }
    }

    /// Sets the body to plain text, escaped.
    pub fn text(self, text: &str) -> (out: Element)
        ensures
            out@ == (Markup { text: Some(escape(text@)), ..self@ }),
    {
        let mut out = self;
        out.text = Some(escape_text(text));
        assert(out@.children =~= self@.children);
        out
    }

    /// Sets the body to text that is taken as it is.
    pub fn cdata(self, text: &str) -> (out: Element)
        ensures
            out@ == (Markup { text: Some(cdata_wrap(text@)), ..self@ }),
    {
        let mut body = "<![CDATA[".to_owned();
        body.append(text);
        body.append("]]>");
        let mut out = self;
        out.text = Some(body);
        assert(out@.children =~= self@.children);
        out
    }

    /// Appends an element, an optional element or a vector of elements after
    /// the children already there. Nothing is added for `None` or an empty
    /// vector.
    pub fn append<T: CanAppend>(self, item: T) -> (out: Element)
        ensures
            out@ == (Markup { children: self@.children + item.items(), ..self@ }),
    {
        item.append_to(self)
    }

    /// Writes the element as text: see [`render`].
    pub fn render(&self) -> (out: String)
        ensures
            out@ == render(self@),
        decreases self,
    {
        let mut out = "<".to_owned();
        out.append(self.name.as_str());
        let ghost attrs = self@.attrs;
        let mut i: usize = 0;
        assert(attrs.take(0) =~= Seq::empty());
        while i < self.attr.len()
            invariant
                i <= self.attr@.len(),
                attrs == attr_views(self.attr@),
                out@ == "<"@ + self.name@ + render_attrs(attrs.take(i as int)),
            decreases self.attr@.len() - i,
        {
            assert(attrs.take(i + 1).drop_last() =~= attrs.take(i as int));
            assert(attrs.take(i + 1).last() == (self.attr@[i as int].0@, self.attr@[i as int].1@));
            out.append("\n  ");
            out.append(self.attr[i].0.as_str());
            out.append("=\"");
            out.append(self.attr[i].1.as_str());
            out.append("\"");
            i += 1;
            assert(out@ =~= "<"@ + self.name@ + render_attrs(attrs.take(i as int)));
        }
        assert(attrs.take(attrs.len() as int) =~= attrs);
        if self.attr.len() == 0 {
            out.append(">");
        } else {
            out.append("\n>");
        }
        assert(out@ =~= open_tag(self@));
        match &self.text {
            Some(t) => {
                out.append(t.as_str());
            },
            None => {},
        }
        assert(out@ =~= open_tag(self@) + body(self@));
        let ghost kids = self@.children;
        let mut j: usize = 0;
        assert(kids.take(0) =~= Seq::empty());
        while j < self.children.len()
            invariant
                j <= self.children@.len(),
                kids == self@.children,
                kids.len() == self.children@.len(),
                out@ == open_tag(self@) + body(self@) + render_all(kids.take(j as int)),
            decreases self.children@.len() - j,
        {
            assert(kids.take(j + 1).drop_last() =~= kids.take(j as int));
            assert(kids.take(j + 1).last() == self.children@[j as int]@);
            let child = self.children[j].render();
            out.push('\n');
            out.append(child.as_str());
            j += 1;
            assert(out@ =~= open_tag(self@) + body(self@) + render_all(kids.take(j as int)));
        }
        assert(kids.take(kids.len() as int) =~= kids);
        if self.children.len() == 0 && self.attr.len() == 0 {
            out.append("</");
        } else {
            out.append("\n</");
        }
        out.append(self.name.as_str());
        out.append(">");
        assert(out@ =~= render(self@));
        out
    }
}

/// What can be appended to an element as children.
pub trait CanAppend: Sized {
    /// The elements that appending this adds, in order.
    spec fn items(&self) -> Seq<Markup>;

    /// Appends this to the children of `element`.
    fn append_to(self, element: Element) -> (out: Element)
        ensures
            out@ == (Markup { children: element@.children + self.items(), ..element@ }),
    ;
}

impl CanAppend for Element {
    open spec fn items(&self) -> Seq<Markup> {
        seq![self@]
    }

    fn append_to(self, element: Element) -> (out: Element) {
        let mut out = element;
        out.children.push(self);
        assert(out@.children =~= element@.children + seq![self@]);
        out
    }
}

impl CanAppend for Option<Element> {
    open spec fn items(&self) -> Seq<Markup> {
        match self {
            Some(e) => seq![e@],
            None => Seq::empty(),
        }
    }

    fn append_to(self, element: Element) -> (out: Element) {
        match self {
            Some(e) => e.append_to(element),
            None => {
                assert(element@.children + Seq::<Markup>::empty() =~= element@.children);
                element
            },
        }
    }
}

impl CanAppend for Vec<Element> {
    open spec fn items(&self) -> Seq<Markup> {
        self@.map_values(|e: Element| e@)
    }

    fn append_to(self, element: Element) -> (out: Element) {
        let mut out = element;
        let mut items = self;
        out.children.append(&mut items);
        assert(out@.children =~= element@.children + self.items());
        out
    }
}

/// Appending nothing changes nothing: an element to which `None` or an empty
/// vector is appended is the element it was, and so is written the same.
pub proof fn lemma_nothing_appended(m: Markup, absent: Option<Element>, none: Vec<Element>)
    requires
        absent is None,
        none@.len() == 0,
    ensures
        (Markup { children: m.children + absent.items(), ..m }) == m,
        (Markup { children: m.children + none.items(), ..m }) == m,
{
    assert(m.children + absent.items() =~= m.children);
    assert(m.children + none.items() =~= m.children);
}

/// An element with only a name is written as its opening and closing tag
/// with nothing between them.
pub proof fn lemma_render_bare(name: Seq<char>)
    ensures
        render(bare(name)) == "<"@ + name + ">"@ + "</"@ + name + ">"@,
{
    let m = bare(name);
    assert(render_all(m.children) =~= Seq::<char>::empty());
    assert(render(m) =~= "<"@ + name + ">"@ + "</"@ + name + ">"@);
}

} // verus!
