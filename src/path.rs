//! JSON paths: a root marker followed by field and index steps.
use vstd::prelude::*;

verus! {

/// The character for a decimal digit `d < 10`.
pub open spec fn digit_char(d: nat) -> char {
    if d == 0 {
        '0'
    } else if d == 1 {
        '1'
    } else if d == 2 {
        '2'
    } else if d == 3 {
        '3'
    } else if d == 4 {
        '4'
    } else if d == 5 {
        '5'
    } else if d == 6 {
        '6'
    } else if d == 7 {
        '7'
    } else if d == 8 {
        '8'
    } else {
        '9'
    }
}

/// The decimal notation of `n`, without leading zeros.
pub open spec fn decimal(n: nat) -> Seq<char>
    decreases n,
{
    if n < 10 {
        seq![digit_char(n)]
    } else {
        decimal(n / 10) + seq![digit_char(n % 10)]
    }
}

/// One step of a path: a named field of an object, or a position in an array.
#[derive(Debug)]
pub enum PathElement {
    Field(String),
    Index(usize),
}

impl PathElement {
    /// The text of this step: `.name` for a field, `[n]` for an index.
    pub open spec fn spec_render(&self) -> Seq<char> {
        match self {
            PathElement::Field(name) => seq!['.'] + name@,
            PathElement::Index(i) => seq!['['] + decimal(*i as nat) + seq![']'],
        }
    }

    /// A field step.
    pub fn field(name: &str) -> (r: PathElement)
        ensures
            r is Field,
            r->Field_0@ == name@,
    {
        PathElement::Field(name.to_string())
    }

    /// Appends the text of this step to `out`.
    pub fn render_into(&self, out: &mut String)
        ensures
            final(out)@ == old(out)@ + self.spec_render(),
    {
        match self {
            PathElement::Field(name) => {
                push_literal_dot(out);
                out.append(name.as_str());
            },
            PathElement::Index(i) => {
                proof {
                    reveal_strlit("[");
                    reveal_strlit("]");
                }
                out.append("[");
                push_decimal(*i, out);
                out.append("]");
            },
        }
    }
}

fn push_literal_dot(out: &mut String)
    ensures
        final(out)@ == old(out)@ + seq!['.'],
{
    proof {
        reveal_strlit(".");
    }
    out.append(".");
}


/// The one-character text of a decimal digit.
fn digit_text(d: usize) -> (r: &'static str)
    requires
        d < 10,
    ensures
        r@ == seq![digit_char(d as nat)],
{
    proof {
        reveal_strlit("0");
        reveal_strlit("1");
        reveal_strlit("2");
        reveal_strlit("3");
        reveal_strlit("4");
        reveal_strlit("5");
        reveal_strlit("6");
        reveal_strlit("7");
        reveal_strlit("8");
        reveal_strlit("9");
    }
    if d == 0 {
        "0"
    } else if d == 1 {
        "1"
    } else if d == 2 {
        "2"
    } else if d == 3 {
        "3"
    } else if d == 4 {
        "4"
    } else if d == 5 {
        "5"
    } else if d == 6 {
        "6"
    } else if d == 7 {
        "7"
    } else if d == 8 {
        "8"
    } else {
        "9"
    }
}

/// Appends the decimal notation of `n` to `out`.
pub fn push_decimal(n: usize, out: &mut String)
    ensures
        final(out)@ == old(out)@ + decimal(n as nat),
    decreases n,
{
    if n < 10 {
        out.append(digit_text(n));
    } else {
        push_decimal(n / 10, out);
        out.append(digit_text(n % 10));
        proof {
            assert(final(out)@ =~= old(out)@ + decimal(n as nat));
        }
    }
}

impl Clone for PathElement {
    fn clone(&self) -> (r: PathElement)
        ensures
            r == *self,
    {
        match self {
            PathElement::Field(name) => PathElement::Field(name.clone()),
            PathElement::Index(i) => PathElement::Index(*i),
        }
    }
}

impl From<usize> for PathElement {
    fn from(value: usize) -> (r: PathElement) {
        PathElement::Index(value)
    }
}

impl vstd::std_specs::convert::FromSpecImpl<usize> for PathElement {
    open spec fn obeys_from_spec() -> bool {
        true
    }

    open spec fn from_spec(v: usize) -> PathElement {
        PathElement::Index(v)
    }
}

/// The text of a sequence of steps, each after the one before it.
pub open spec fn render_elements(elements: Seq<PathElement>) -> Seq<char>
    decreases elements.len(),
{
    if elements.len() == 0 {
        Seq::empty()
    } else {
        render_elements(elements.drop_last()) + elements.last().spec_render()
    }
}

/// A location inside a JSON document: the steps taken from its root.
#[derive(Debug)]
pub struct Path {
    pub elements: Vec<PathElement>,
}

impl View for Path {
    type V = Seq<PathElement>;

    open spec fn view(&self) -> Seq<PathElement> {
        self.elements@
    }
}

/// The text of a path: the root marker `$`, then each step in order.
pub open spec fn render(p: Seq<PathElement>) -> Seq<char> {
    seq!['$'] + render_elements(p)
}

impl Path {
    /// The path of the document root itself.
    pub fn new() -> (r: Path)
        ensures
            r@ == Seq::<PathElement>::empty(),
    {
        Path { elements: Vec::new() }
    }

    /// A new path: this one with `element` appended as its last step.
    pub fn join(&self, element: PathElement) -> (r: Path)
        ensures
            r@ == self@.push(element),
    {
        let mut elements: Vec<PathElement> = Vec::new();
        let mut i: usize = 0;
        while i < self.elements.len()
            invariant
                i <= self@.len(),
                elements@ == self@.subrange(0, i as int),
            decreases self@.len() - i,
        {
            elements.push(self.elements[i].clone());
            i = i + 1;
            proof {
                assert(elements@ =~= self@.subrange(0, i as int));
            }
        }
        proof {
            assert(elements@ =~= self@);
        }
        elements.push(element);
        Path { elements }
    }

    /// Appends the text of this path to `out`.
    pub fn render_into(&self, out: &mut String)
        ensures
            final(out)@ == old(out)@ + render(self@),
    {
        proof {
            reveal_strlit("$");
        }
        out.append("$");
        let mut i: usize = 0;
        while i < self.elements.len()
            invariant
                i <= self@.len(),
                out@ == old(out)@ + seq!['$'] + render_elements(self@.subrange(0, i as int)),
            decreases self@.len() - i,
        {
            self.elements[i].render_into(out);
            proof {
                let next = self@.subrange(0, i + 1);
                assert(next.drop_last() =~= self@.subrange(0, i as int));
            }
            i = i + 1;
        }
        proof {
            assert(self@.subrange(0, self@.len() as int) =~= self@);
            assert(out@ =~= old(out)@ + render(self@));
        }
    }

    /// The text of this path, in the engine's JSON path syntax.
    pub fn to_string(&self) -> (r: String)
        ensures
            r@ == render(self@),
    {
        let mut out = String::new();
        self.render_into(&mut out);
        proof {
            assert(out@ =~= render(self@));
        }
        out
    }
}

impl Clone for Path {
    fn clone(&self) -> (r: Path)
        ensures
            r@ == self@,
    {
        let mut elements: Vec<PathElement> = Vec::new();
        let mut i: usize = 0;
        while i < self.elements.len()
            invariant
                i <= self@.len(),
                elements@ == self@.subrange(0, i as int),
            decreases self@.len() - i,
        {
            elements.push(self.elements[i].clone());
            i = i + 1;
            proof {
                assert(elements@ =~= self@.subrange(0, i as int));
            }
        }
        proof {
            assert(elements@ =~= self@);
        }
        Path { elements }
    }
}


/// Rendering is compositional: the text of a path joined with two more steps
/// is the text of the path, then the text of the first step, then that of the
/// second.
pub proof fn lemma_render_join(p: Seq<PathElement>, s1: PathElement, s2: PathElement)
    ensures
        render(p.push(s1).push(s2)) == render(p) + s1.spec_render() + s2.spec_render(),
{
    let q = p.push(s1);
    assert(q.push(s2).drop_last() =~= q);
    assert(q.drop_last() =~= p);
    assert(render_elements(q.push(s2)) == render_elements(q) + s2.spec_render());
    assert(render_elements(q) == render_elements(p) + s1.spec_render());
    assert(render(p.push(s1).push(s2)) =~= render(p) + s1.spec_render() + s2.spec_render());
}

} // verus!
