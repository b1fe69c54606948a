use vstd::prelude::*;

use vstd::string::StringExecFns;

verus! {

/// A structured document: literal text, a breakable space, concatenation,
/// and a group that the layout engine may put on one line or break at its
/// spaces. The external layout service renders it at a requested width.
pub enum Doc {
    Text(String),
    Space,
    Append(Box<Doc>, Box<Doc>),
    Group(Box<Doc>),
}

/// The mathematical value of a document.
pub ghost enum DocV {
    Text(Seq<char>),
    Space,
    Append(Box<DocV>, Box<DocV>),
    Group(Box<DocV>),
}

pub open spec fn doc_view(d: Doc) -> DocV
    decreases d,
{
    match d {
        Doc::Text(s) => DocV::Text(s@),
        Doc::Space => DocV::Space,
        Doc::Append(a, b) => DocV::Append(Box::new(doc_view(*a)), Box::new(doc_view(*b))),
        Doc::Group(a) => DocV::Group(Box::new(doc_view(*a))),
    }
}

impl View for Doc {
    type V = DocV;

    open spec fn view(&self) -> DocV {
        doc_view(*self)
    }
}

impl Doc {
    /// The given text, which must not contain line breaks.
    pub fn text(s: String) -> (d: Doc)
        ensures
            d@ == DocV::Text(s@),
    {
        Doc::Text(s)
    }

    /// A space that the layout engine may replace by a line break.
    pub fn space() -> (d: Doc)
        ensures
            d@ == DocV::Space,
    {
        Doc::Space
    }

    /// Append the given document after this document.
    pub fn append(self, other: Doc) -> (d: Doc)
        ensures
            d@ == DocV::Append(Box::new(self@), Box::new(other@)),
    {
        Doc::Append(Box::new(self), Box::new(other))
    }

    /// Mark this document as a group, laid out on a single line if it fits.
    pub fn group(self) -> (d: Doc)
        ensures
            d@ == DocV::Group(Box::new(self@)),
    {
        Doc::Group(Box::new(self))
    }
}

/// Declares `pretty`'s document type so that the conversion below can name
/// it; this layer builds such values only to hand them to the renderer.
#[verifier::external_type_specification]
#[verifier::external_body]
#[verifier::reject_recursive_types(A)]
pub struct ExBoxDoc<'a, A>(pretty::BoxDoc<'a, A>);

/// Relies on `pretty`'s document constructors `text`, `line`, `append` and
/// `group`: converts one `Doc` node per arm, one for one, into the layout
/// engine's own document type (`line` is the space that may break).
#[verifier::external_body]
fn to_layout_doc(d: &Doc) -> pretty::BoxDoc<'static, ()> {
    match d {
        Doc::Text(s) => pretty::BoxDoc::text(s.clone()),
        Doc::Space => pretty::BoxDoc::line(),
        Doc::Append(a, b) => to_layout_doc(a).append(to_layout_doc(b)),
        Doc::Group(a) => to_layout_doc(a).group(),
    }
}

/// The text that `pretty`'s layout engine produces for a document at a
/// width: a deterministic function of the document and the width alone.
pub uninterp spec fn rendered(d: DocV, width: int) -> Seq<char>;

/// Relies on `pretty`'s `Doc::render_fmt`: lays the document out at the
/// given width, deterministically from the document and the width alone.
/// Writing to a `String` cannot fail and none of the four constructors
/// builds a failing document, so the unwrap mirrors the invariant that a
/// rendering failure would be a programming error in this layer.
#[verifier::external_body]
pub(crate) fn render_doc(d: &Doc, width: usize) -> (r: String)
    ensures
        r@ == rendered(d@, width as int),
{
    let mut out = String::new();
    to_layout_doc(d).render_fmt(width, &mut out).unwrap();
    out
}

/// The decimal digits of `n`, most significant first.
pub open spec fn dec_digits(n: nat) -> Seq<char>
    decreases n,
{
    if n < 10 {
        seq![dec_digit(n)]
    } else {
        dec_digits(n / 10).push(dec_digit(n % 10))
    }
}

/// The digit character for a value below ten.
pub open spec fn dec_digit(n: nat) -> char {
    if n == 0 {
        '0'
    } else if n == 1 {
        '1'
    } else if n == 2 {
        '2'
    } else if n == 3 {
        '3'
    } else if n == 4 {
        '4'
    } else if n == 5 {
        '5'
    } else if n == 6 {
        '6'
    } else if n == 7 {
        '7'
    } else if n == 8 {
        '8'
    } else {
        '9'
    }
}

/// The decimal rendering of an integer: a minus sign for a negative value,
/// then its digits.
pub open spec fn int_to_dec(x: int) -> Seq<char> {
    if x < 0 {
        seq!['-'] + dec_digits((-x) as nat)
    } else {
        dec_digits(x as nat)
    }
}

/// The one-character text of a digit below ten.
fn digit_str(d: u64) -> (r: &'static str)
    requires
        d < 10,
    ensures
        r@ == seq![dec_digit(d as nat)],
{
    proof {
        reveal_strlit("0");
        reveal_strlit("1");
        reveal_strlit("2");
        reveal_strlit("3");
        reveal_strlit("4");
        reveal_strlit("5");
        reveal_strlit("6");
        reveal_strlit("7");
        reveal_strlit("8");
        reveal_strlit("9");
        assert("0"@ =~= seq!['0']);
        assert("1"@ =~= seq!['1']);
        assert("2"@ =~= seq!['2']);
        assert("3"@ =~= seq!['3']);
        assert("4"@ =~= seq!['4']);
        assert("5"@ =~= seq!['5']);
        assert("6"@ =~= seq!['6']);
        assert("7"@ =~= seq!['7']);
        assert("8"@ =~= seq!['8']);
        assert("9"@ =~= seq!['9']);
    }
    if d == 0 {
        "0"
    } else if d == 1 {
        "1"
    } else if d == 2 {
        "2"
    } else if d == 3 {
        "3"
    } else if d == 4 {
        "4"
    } else if d == 5 {
        "5"
    } else if d == 6 {
        "6"
    } else if d == 7 {
        "7"
    } else if d == 8 {
        "8"
    } else {
        "9"
    }
}

/// Append the decimal digits of `n` to `out`, most significant first.
fn push_decimal_digits(n: u64, out: &mut String)
    ensures
        final(out)@ == old(out)@ + dec_digits(n as nat),
    decreases n,
{
    if n >= 10 {
        proof {
            assert(n / 10 < n);
        }
        push_decimal_digits(n / 10, out);
        out.append(digit_str(n % 10));
        proof {
            assert(out@ =~= old(out)@ + dec_digits(n as nat));
        }
    } else {
        out.append(digit_str(n));
    }
}

/// The decimal text of an integer: its digits, with a leading minus sign
/// when it is negative.
pub(crate) fn i64_to_string(x: i64) -> (r: String)
    ensures
        r@ == int_to_dec(x as int),
{
    let mut out = String::new();
    if x < 0 {
        proof {
            reveal_strlit("-");
            assert("-"@ =~= seq!['-']);
        }
        out.append("-");
        let mag: u64 = if x == i64::MIN {
            9223372036854775808u64
        } else {
            (-x) as u64
        };
        push_decimal_digits(mag, &mut out);
        proof {
            assert(out@ =~= int_to_dec(x as int));
        }
    } else {
        push_decimal_digits(x as u64, &mut out);
        proof {
            assert(out@ =~= int_to_dec(x as int));
        }
    }
    out
}

} // verus!
