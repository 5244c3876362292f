//! The helpers that templates can call to change the case of a value.

use vstd::prelude::*;
use vstd::string::StringExecFns;
use convert_case::{Boundary, Case, Casing, Converter, Pattern};
use crate::text::{
    join2, lowercased, same_text, to_lowercase, to_uppercase, uppercased,
};

verus! {

/// The cases that `to-case` can convert to.
#[derive(Debug, Clone, Copy, PartialEq, Eq, Structural)]
pub enum CaseKind {
    Toggle,
    Pascal,
    Camel,
    UpperCamel,
    Snake,
    UpperSnake,
    ScreamingSnake,
    Kebab,
    Cobol,
    Train,
    Flat,
    UpperFlat,
    Alternating,
}

/// What `titlecase::titlecase` returns for `s`.
pub uninterp spec fn titlecased(s: Seq<char>) -> Seq<char>;

/// What `convert_case::Casing::to_case` returns for `s` and the case `kind`.
pub uninterp spec fn case_converted(kind: CaseKind, s: Seq<char>) -> Seq<char>;

/// What a `convert_case::Converter` returns for `s` when it is set to the
/// camel pattern, without the four boundaries between letters and digits,
/// and joins the words by `delim`.
pub uninterp spec fn camel_joined(s: Seq<char>, delim: Seq<char>) -> Seq<char>;

/// Calls `titlecase::titlecase`; the result is given the name `titlecased`.
#[verifier::external_body]
pub(crate) fn to_titlecase(s: &str) -> (r: String)
    ensures
        r@ == titlecased(s@),
{
    titlecase::titlecase(s)
}

/// Calls `convert_case::Casing::to_case` on `s` with the case of
/// `convert_case` that has the name of `kind`; the result is given the name
/// `case_converted`.
#[verifier::external_body]
pub(crate) fn to_case(kind: CaseKind, s: &str) -> (r: String)
    ensures
        r@ == case_converted(kind, s@),
{
    s.to_case(match kind {
        CaseKind::Toggle => Case::Toggle, CaseKind::Pascal => Case::Pascal,
        CaseKind::Camel => Case::Camel, CaseKind::UpperCamel => Case::UpperCamel,
        CaseKind::Snake => Case::Snake, CaseKind::UpperSnake => Case::UpperSnake,
        CaseKind::ScreamingSnake => Case::ScreamingSnake, CaseKind::Kebab => Case::Kebab,
        CaseKind::Cobol => Case::Cobol, CaseKind::Train => Case::Train,
        CaseKind::Flat => Case::Flat, CaseKind::UpperFlat => Case::UpperFlat,
        CaseKind::Alternating => Case::Alternating,
    })
}

/// Calls `convert_case::Converter::convert` on `s`, with the converter set
/// to the camel pattern, the four boundaries between letters and digits
/// removed, and `delim` between the words; the result is given the name
/// `camel_joined`.
#[verifier::external_body]
pub(crate) fn join_camel_words(s: &str, delim: &str) -> (r: String)
    ensures
        r@ == camel_joined(s@, delim@),
{
    Converter::new()
        .set_pattern(Pattern::Camel)
        .remove_boundaries(&[
            Boundary::UpperDigit,
            Boundary::LowerDigit,
            Boundary::DigitUpper,
            Boundary::DigitLower,
        ])
        .set_delim(delim)
        .convert(s)
}

/// The message of a helper that was called without the value to work on.
pub open spec fn missing_argument() -> Seq<char> {
    "this function requires an argument to process"@
}

fn first_param(params: &Vec<String>) -> (r: Result<&String, String>)
    ensures
        match r {
            Ok(p) => params@.len() > 0 && p@ == params@[0]@,
            Err(e) => params@.len() == 0 && e@ == missing_argument(),
        },
{
    if params.len() == 0 {
        Err(String::from_str("this function requires an argument to process"))
    } else {
        Ok(&params[0])
    }
}

/// `to-upper`: the value in upper case.
#[derive(Clone, Copy, Debug)]
pub struct ToUpperHelper;

/// `to-lower`: the value in lower case.
#[derive(Clone, Copy, Debug)]
pub struct ToLowerHelper;

/// `to-title`: the value in title case.
#[derive(Clone, Copy, Debug)]
pub struct ToTitleHelper;

/// `to-flat`: the value's words in lower case, run together.
#[derive(Clone, Copy, Debug)]
pub struct ToFlatHelper;

/// `to-java-package`: the value's words in lower case, joined by dots.
#[derive(Clone, Copy, Debug)]
pub struct ToJavaPackageHelper;

/// `to-java-package-path`: the value's words in lower case, joined by
/// slashes.
#[derive(Clone, Copy, Debug)]
pub struct ToJavaPackagePathHelper;

/// `to-case`: the second value in the case that the first one names.
#[derive(Clone, Copy, Debug)]
pub struct ToCaseHelper;

/// What a helper of one value returns: the value changed by `f`, or the
/// complaint that there is no value.
pub open spec fn unary_result(params: Seq<Seq<char>>, changed: Seq<char>) -> Result<
    Seq<char>,
    Seq<char>,
> {
    if params.len() == 0 {
        Err(missing_argument())
    } else {
        Ok(changed)
    }
}

/// Whether an executable result and its model agree.
pub open spec fn same_result(r: Result<String, String>, m: Result<Seq<char>, Seq<char>>) -> bool {
    match r {
        Ok(s) => m == Ok::<Seq<char>, Seq<char>>(s@),
        Err(e) => m == Err::<Seq<char>, Seq<char>>(e@),
    }
}

/// The parameters of a call as the contracts see them.
pub open spec fn texts(params: Seq<String>) -> Seq<Seq<char>> {
    Seq::new(params.len(), |i: int| params[i]@)
}

impl ToUpperHelper {
    /// The first parameter in upper case.
    pub fn call(&self, params: &Vec<String>) -> (r: Result<String, String>)
        ensures
            same_result(
                r,
                unary_result(texts(params@), uppercased(texts(params@)[0])),
            ),
    {
        match first_param(params) {
            Ok(p) => Ok(to_uppercase(p.as_str())),
            Err(e) => Err(e),
        }
    }
}

impl ToLowerHelper {
    /// The first parameter in lower case.
    pub fn call(&self, params: &Vec<String>) -> (r: Result<String, String>)
        ensures
            same_result(
                r,
                unary_result(texts(params@), lowercased(texts(params@)[0])),
            ),
    {
        match first_param(params) {
            Ok(p) => Ok(to_lowercase(p.as_str())),
            Err(e) => Err(e),
        }
    }
}

impl ToTitleHelper {
    /// The first parameter in title case.
    pub fn call(&self, params: &Vec<String>) -> (r: Result<String, String>)
        ensures
            same_result(
                r,
                unary_result(texts(params@), titlecased(texts(params@)[0])),
            ),
    {
        match first_param(params) {
            Ok(p) => Ok(to_titlecase(p.as_str())),
            Err(e) => Err(e),
        }
    }
}

impl ToFlatHelper {
    /// The words of the first parameter in lower case, run together.
    pub fn call(&self, params: &Vec<String>) -> (r: Result<String, String>)
        ensures
            same_result(
                r,
                unary_result(
                    texts(params@),
                    case_converted(CaseKind::Flat, texts(params@)[0]),
                ),
            ),
    {
        match first_param(params) {
            Ok(p) => Ok(to_case(CaseKind::Flat, p.as_str())),
            Err(e) => Err(e),
        }
    }
}

impl ToJavaPackageHelper {
    /// The words of the first parameter in lower case, joined by dots.
    pub fn call(&self, params: &Vec<String>) -> (r: Result<String, String>)
        ensures
            same_result(
                r,
                unary_result(
                    texts(params@),
                    lowercased(camel_joined(texts(params@)[0], "."@)),
                ),
            ),
    {
        match first_param(params) {
            Ok(p) => {
                let joined = join_camel_words(p.as_str(), ".");
                Ok(to_lowercase(joined.as_str()))
            },
            Err(e) => Err(e),
        }
    }
}

impl ToJavaPackagePathHelper {
    /// The words of the first parameter in lower case, joined by slashes.
    pub fn call(&self, params: &Vec<String>) -> (r: Result<String, String>)
        ensures
            same_result(
                r,
                unary_result(
                    texts(params@),
                    lowercased(camel_joined(texts(params@)[0], "/"@)),
                ),
            ),
    {
        match first_param(params) {
            Ok(p) => {
                let joined = join_camel_words(p.as_str(), "/");
                Ok(to_lowercase(joined.as_str()))
            },
            Err(e) => Err(e),
        }
    }
}

/// The case that a name stands for, the name written in kebab case.
pub open spec fn case_of_name(name: Seq<char>) -> Option<CaseKind> {
    if name == "toggle"@ {
        Some(CaseKind::Toggle)
    } else if name == "pascal"@ {
        Some(CaseKind::Pascal)
    } else if name == "camel"@ {
        Some(CaseKind::Camel)
    } else if name == "upper-camel"@ {
        Some(CaseKind::UpperCamel)
    } else if name == "snake"@ {
        Some(CaseKind::Snake)
    } else if name == "upper-snake"@ {
        Some(CaseKind::UpperSnake)
    } else if name == "screaming-snake"@ {
        Some(CaseKind::ScreamingSnake)
    } else if name == "kebab"@ {
        Some(CaseKind::Kebab)
    } else if name == "cobol"@ {
        Some(CaseKind::Cobol)
    } else if name == "train"@ {
        Some(CaseKind::Train)
    } else if name == "flat"@ {
        Some(CaseKind::Flat)
    } else if name == "upper-flat"@ {
        Some(CaseKind::UpperFlat)
    } else if name == "alternating"@ {
        Some(CaseKind::Alternating)
    } else {
        None
    }
}

/// Finds the case that `name` stands for.
pub fn parse_case(name: &str) -> (r: Option<CaseKind>)
    ensures
        r == case_of_name(name@),
{
    if same_text(name, "toggle") {
        Some(CaseKind::Toggle)
    } else if same_text(name, "pascal") {
        Some(CaseKind::Pascal)
    } else if same_text(name, "camel") {
        Some(CaseKind::Camel)
    } else if same_text(name, "upper-camel") {
        Some(CaseKind::UpperCamel)
    } else if same_text(name, "snake") {
        Some(CaseKind::Snake)
    } else if same_text(name, "upper-snake") {
        Some(CaseKind::UpperSnake)
    } else if same_text(name, "screaming-snake") {
        Some(CaseKind::ScreamingSnake)
    } else if same_text(name, "kebab") {
        Some(CaseKind::Kebab)
    } else if same_text(name, "cobol") {
        Some(CaseKind::Cobol)
    } else if same_text(name, "train") {
        Some(CaseKind::Train)
    } else if same_text(name, "flat") {
        Some(CaseKind::Flat)
    } else if same_text(name, "upper-flat") {
        Some(CaseKind::UpperFlat)
    } else if same_text(name, "alternating") {
        Some(CaseKind::Alternating)
    } else {
        None
    }
}

/// What `to-case` returns for the case named by `given`, whose kebab form is
/// `name`, and the rest of the parameters.
pub open spec fn to_case_result(name: Seq<char>, params: Seq<Seq<char>>) -> Result<
    Seq<char>,
    Seq<char>,
>
    recommends
        params.len() > 0,
{
    match case_of_name(name) {
        Some(kind) => if params.len() < 2 {
            Err("argument to process not specified"@)
        } else {
            Ok(case_converted(kind, params[1]))
        },
        None => if name.len() == 0 {
            Err(
                "try putting the name of your desired case in quotation marks e.g. \"snake\""@,
            )
        } else {
            Err("case '"@ + params[0] + "' not supported"@)
        },
    }
}

impl ToCaseHelper {
    /// Converts the second parameter to the case whose kebab form is `name`.
    pub fn convert(&self, name: &str, params: &Vec<String>) -> (r: Result<String, String>)
        requires
            params@.len() > 0,
        ensures
            same_result(r, to_case_result(name@, texts(params@))),
    {
        match parse_case(name) {
            Some(kind) => {
                if params.len() < 2 {
                    Err(String::from_str("argument to process not specified"))
                } else {
                    Ok(to_case(kind, params[1].as_str()))
                }
            },
            None => {
                if name.unicode_len() == 0 {
                    Err(
                        String::from_str(
                            "try putting the name of your desired case in quotation marks e.g. \"snake\"",
                        ),
                    )
                } else {
                    Err(join2("case '", params[0].as_str()).concat("' not supported"))
                }
            },
        }
    }

    /// The second parameter in the case that the first one names.
    pub fn call(&self, params: &Vec<String>) -> (r: Result<String, String>)
        ensures
            same_result(
                r,
                if params@.len() == 0 {
                    Err("case type (e.g. 'snake' or 'camel') not specified"@)
                } else {
                    to_case_result(
                        case_converted(CaseKind::Kebab, texts(params@)[0]),
                        texts(params@),
                    )
                },
            ),
    {
        if params.len() == 0 {
            return Err(String::from_str("case type (e.g. 'snake' or 'camel') not specified"));
        }
        let name = to_case(CaseKind::Kebab, params[0].as_str());
        self.convert(name.as_str(), params)
    }
}

} // verus!
