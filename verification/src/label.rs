//! The label of a drawable.
use crate::ast::Config;
use crate::render::{cascade, number_of, StyledDObject};
use crate::structs::Real;
use crate::text::{Fragment, Token};
use crate::utils::{ConfigValue, LabelError, Setting};
use vstd::prelude::*;
use vstd::string::StrSliceExecFns;

verus! {

/// What a kernel needs to know to place a label: the size of its letters, its
/// distance from the object in pixels, the direction in which it lies from
/// the object, and how far along the object it stands.
#[derive(Debug, Clone, Copy)]
pub struct LabelRequest {
    pub size: Real,
    pub dist: Real,
    pub angle: Real,
    pub loc: Real,
}

/// What a kernel has computed for a label: its place in the frame of the
/// drawing, in centimetres, and for an index how far it is lowered and how
/// large its letters are.
#[derive(Debug, Clone, Copy)]
pub struct LabelMetrics {
    pub x: Real,
    pub y: Real,
    pub dy: Real,
    pub sub_size: Real,
}

/// The place of the first underscore in `s`.
pub open spec fn first_underscore(s: Seq<char>) -> Option<int>
    decreases s.len(),
{
    if s.len() == 0 {
        None
    } else {
        match first_underscore(s.drop_last()) {
            Some(i) => Some(i),
            None => if s.last() == '_' {
                Some(s.len() - 1)
            } else {
                None
            },
        }
    }
}

/// The first underscore of a string is in the string, it is an underscore,
/// and no underscore stands before it.
pub proof fn lemma_first_underscore(s: Seq<char>)
    ensures
        match first_underscore(s) {
            Some(i) => 0 <= i < s.len() && s[i] == '_' && forall|j: int|
                0 <= j < i ==> s[j] != '_',
            None => forall|j: int| 0 <= j < s.len() ==> s[j] != '_',
        },
    decreases s.len(),
{
    if s.len() > 0 {
        lemma_first_underscore(s.drop_last());
        match first_underscore(s.drop_last()) {
            Some(i) => {
                assert(s.drop_last()[i] == s[i]);
                assert forall|j: int| 0 <= j < i implies s[j] != '_' by {
                    assert(s.drop_last()[j] == s[j]);
                }
            },
            None => {
                assert forall|j: int| 0 <= j < s.len() - 1 implies s[j] != '_' by {
                    assert(s.drop_last()[j] == s[j]);
                }
            },
        }
    }
}

/// The words of a label. Where a string has an underscore, the first one
/// opens an index: what follows it is set lower and smaller.
pub open spec fn label_words(value: Setting, dy: Real, sub_size: Real) -> Seq<Token> {
    match value {
        Setting::Text(s) => match first_underscore(s) {
            Some(i) => seq![
                Token::Text(s.subrange(0, i)),
                Token::Text("<tspan dy=\""@),
                Token::Number(dy),
                Token::Text("\" font-size=\""@),
                Token::Number(sub_size),
                Token::Text("\">"@),
                Token::Text(s.subrange(i + 1, s.len() as int)),
                Token::Text("</tspan>"@),
            ],
            None => seq![Token::Text(s)],
        },
        other => seq![other.token()],
    }
}

/// The `text` element of a label.
pub open spec fn label_element(
    words: Seq<Token>,
    size: Real,
    font: Token,
    x: Real,
    y: Real,
) -> Seq<Token> {
    (seq![
        Token::Text("<text font-size=\""@),
        Token::Number(size),
        Token::Text("\" font-family=\""@),
        font,
        Token::Text(
            "\" font-style=\"italic\" text-anchor=\"middle\" dominant-baseline=\"middle\" x=\""@,
        ),
        Token::Number(x),
        Token::Text("cm\" y=\""@),
        Token::Number(y),
        Token::Text("cm\">"@),
    ] + words).push(Token::Text("</text>"@))
}

/// What a kernel is asked for the label of an object, under the options
/// `local` of the object alone and `global` of the whole drawing. The options
/// `labelsize`, `dist`, `angle` and `loc` must be numbers.
pub open spec fn label_asked(local: Option<&Config>, global: Map<Seq<char>, ConfigValue>) -> Result<
    LabelRequest,
    LabelError,
> {
    let option = |key: Seq<char>| cascade(local, global, key);
    match (
        number_of(option("labelsize"@)),
        number_of(option("dist"@)),
        number_of(option("angle"@)),
        number_of(option("loc"@)),
    ) {
        (Some(size), Some(dist), Some(angle), Some(loc)) => Ok(
            LabelRequest { size, dist, angle, loc },
        ),
        _ => Err(LabelError::WrongConfigType),
    }
}

/// The label of an object, under the options `local` of the object alone and
/// `global` of the whole drawing, at the place that a kernel computed. The
/// options `label` and `font` must be set, and those that a kernel is asked
/// with must be numbers.
pub open spec fn label_written(
    local: Option<&Config>,
    global: Map<Seq<char>, ConfigValue>,
    metrics: LabelMetrics,
) -> Result<Seq<Token>, LabelError> {
    let option = |key: Seq<char>| cascade(local, global, key);
    match (option("label"@), label_asked(local, global), option("font"@)) {
        (Some(label), Ok(asked), Some(font)) => Ok(
            label_element(
                label_words(label@, metrics.dy, metrics.sub_size),
                asked.size,
                font@.token(),
                metrics.x,
                metrics.y,
            ),
        ),
        _ => Err(LabelError::WrongConfigType),
    }
}

/// A string that has an underscore has it in every longer string too.
proof fn lemma_underscore_stays(s: Seq<char>, upto: int)
    requires
        0 <= upto <= s.len(),
        first_underscore(s.subrange(0, upto)) is Some,
    ensures
        first_underscore(s) == first_underscore(s.subrange(0, upto)),
    decreases s.len() - upto,
{
    if upto < s.len() {
        let next = s.subrange(0, upto + 1);
        assert(next.drop_last() =~= s.subrange(0, upto));
        lemma_underscore_stays(s, upto + 1);
    } else {
        assert(s.subrange(0, upto) =~= s);
    }
}

/// The place of the first underscore in `s`.
pub fn find_underscore(s: &str) -> (r: Option<usize>)
    ensures
        match r {
            Some(i) => first_underscore(s@) == Some(i as int) && i < s@.len(),
            None => first_underscore(s@) is None,
        },
{
    let n = s.unicode_len();
    let mut i: usize = 0;
    while i < n
        invariant
            n == s@.len(),
            i <= n,
            first_underscore(s@.subrange(0, i as int)) is None,
        decreases n - i,
    {
        let ghost here = s@.subrange(0, i + 1);
        assert(here.drop_last() =~= s@.subrange(0, i as int));
        assert(here.last() == s@[i as int]);
        if s.get_char(i) == '_' {
            proof {
                lemma_underscore_stays(s@, i + 1);
            }
            return Some(i);
        }
        i += 1;
    }
    assert(s@.subrange(0, n as int) =~= s@);
    None
}

/// Writes the words of a label.
pub fn write_words(value: &ConfigValue, dy: Real, sub_size: Real) -> (f: Fragment)
    ensures
        f@ == label_words(value@, dy, sub_size),
{
    let mut f = Fragment::new();
    match value {
        ConfigValue::String(s) => {
            let text = s.as_str();
            match find_underscore(text) {
                Some(i) => {
                    let n = text.unicode_len();
                    f.text(text.substring_char(0, i));
                    f.text("<tspan dy=\"");
                    f.number(dy);
                    f.text("\" font-size=\"");
                    f.number(sub_size);
                    f.text("\">");
                    f.text(text.substring_char(i + 1, n));
                    f.text("</tspan>");
                },
                None => {
                    f.text(text);
                },
            }
        },
        _ => {
            f.push(value.piece());
        },
    }
    f
}

impl<'conf> StyledDObject<'conf> {
    /// What a kernel is asked for the label of this object.
    pub open spec fn label_asked(&self) -> Result<LabelRequest, LabelError> {
        label_asked(self.local_conf, self.global_conf@)
    }

    /// The label of this object.
    pub open spec fn label_written(&self, metrics: LabelMetrics) -> Result<Seq<Token>, LabelError> {
        label_written(self.local_conf, self.global_conf@, metrics)
    }

    /// What a kernel needs to know to place the label of this object.
    pub fn label_request(&self) -> (r: Result<LabelRequest, LabelError>)
        ensures
            r == self.label_asked(),
    {
        let size = self.number("labelsize");
        let dist = self.number("dist");
        let angle = self.number("angle");
        let loc = self.number("loc");
        match (size, dist, angle, loc) {
            (Ok(size), Ok(dist), Ok(angle), Ok(loc)) => Ok(LabelRequest { size, dist, angle, loc }),
            _ => Err(LabelError::WrongConfigType),
        }
    }

    /// Writes the label of this object at the place that a kernel computed.
    pub fn label(&self, metrics: &LabelMetrics) -> (r: Result<Fragment, LabelError>)
        ensures
            match r {
                Ok(f) => self.label_written(*metrics) == Ok::<Seq<Token>, LabelError>(f@),
                Err(e) => self.label_written(*metrics) == Err::<Seq<Token>, LabelError>(e),
            },
    {
        let label = self.get("label");
        let asked = self.label_request();
        let font = self.get("font");
        match (label, asked, font) {
            (Some(label), Ok(asked), Some(font)) => {
                let words = write_words(label, metrics.dy, metrics.sub_size);
                let mut f = Fragment::new();
                f.text("<text font-size=\"");
                f.number(asked.size);
                f.text("\" font-family=\"");
                f.push(font.piece());
                f.text(
                    "\" font-style=\"italic\" text-anchor=\"middle\" dominant-baseline=\"middle\" x=\"",
                );
                f.number(metrics.x);
                f.text("cm\" y=\"");
                f.number(metrics.y);
                f.text("cm\">");
                f.append(&words);
                f.text("</text>");
                assert(f@ == label_element(words@, asked.size, font@.token(), metrics.x, metrics.y));
                Ok(f)
            },
            _ => Err(LabelError::WrongConfigType),
        }
    }
}

} // verus!
