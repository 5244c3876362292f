//! The template renderer: a registry of the engine with this library's
//! helpers, and the rendering of one text against one context.

use vstd::prelude::*;
use vstd::string::StringExecFns;
use handlebars::{
    Context, Handlebars, Helper, HelperResult, JsonRender, Output, RenderContext, RenderError,
};
use std::collections::BTreeMap;
use crate::context::{map_of, names_distinct, pairs_of, StdContext};
use crate::errors::{BrixError, BrixErrorKind};
use crate::text::{chars_of, lowercased, uppercased};
use crate::helpers::{
    camel_joined, case_converted, same_result, texts, titlecased, to_case_result, unary_result,
    CaseKind, ToCaseHelper, ToFlatHelper, ToJavaPackageHelper, ToJavaPackagePathHelper, ToLowerHelper,
    ToTitleHelper, ToUpperHelper,
};

verus! {

/// The registry of `handlebars`.
#[verifier::external_type_specification]
#[verifier::external_body]
pub struct ExHandlebars<'reg>(Handlebars<'reg>);

/// The helpers that every registry of this library holds.
#[derive(Debug, Clone, Copy, PartialEq, Eq, Structural)]
pub enum HelperKind {
    ToUpper,
    ToLower,
    ToTitle,
    ToCase,
    ToFlat,
    ToJavaPackage,
    ToJavaPackagePath,
}

impl HelperKind {
    /// The name by which templates call the helper.
    pub open spec fn spec_name(self) -> Seq<char> {
        match self {
            HelperKind::ToUpper => "to-upper"@,
            HelperKind::ToLower => "to-lower"@,
            HelperKind::ToTitle => "to-title"@,
            HelperKind::ToCase => "to-case"@,
            HelperKind::ToFlat => "to-flat"@,
            HelperKind::ToJavaPackage => "to-java-package"@,
            HelperKind::ToJavaPackagePath => "to-java-package-path"@,
        }
    }

    /// The name by which templates call the helper.
    pub fn name(self) -> (n: &'static str)
        ensures
            n@ == self.spec_name(),
    {
        match self {
            HelperKind::ToUpper => "to-upper",
            HelperKind::ToLower => "to-lower",
            HelperKind::ToTitle => "to-title",
            HelperKind::ToCase => "to-case",
            HelperKind::ToFlat => "to-flat",
            HelperKind::ToJavaPackage => "to-java-package",
            HelperKind::ToJavaPackagePath => "to-java-package-path",
        }
    }

    /// What the helper gives for the rendered parameters of one call.
    pub open spec fn output(self, params: Seq<Seq<char>>) -> Result<Seq<char>, Seq<char>> {
        match self {
            HelperKind::ToUpper => unary_result(params, uppercased(params[0])),
            HelperKind::ToLower => unary_result(params, lowercased(params[0])),
            HelperKind::ToTitle => unary_result(params, titlecased(params[0])),
            HelperKind::ToCase => if params.len() == 0 {
                Err("case type (e.g. 'snake' or 'camel') not specified"@)
            } else {
                to_case_result(case_converted(CaseKind::Kebab, params[0]), params)
            },
            HelperKind::ToFlat => unary_result(params, case_converted(CaseKind::Flat, params[0])),
            HelperKind::ToJavaPackage => unary_result(
                params,
                lowercased(camel_joined(params[0], "."@)),
            ),
            HelperKind::ToJavaPackagePath => unary_result(
                params,
                lowercased(camel_joined(params[0], "/"@)),
            ),
        }
    }

    /// Runs the helper on the rendered parameters of one call.
    pub fn run(self, params: &Vec<String>) -> (r: Result<String, String>)
        ensures
            same_result(r, self.output(texts(params@))),
    {
        match self {
            HelperKind::ToUpper => ToUpperHelper.call(params),
            HelperKind::ToLower => ToLowerHelper.call(params),
            HelperKind::ToTitle => ToTitleHelper.call(params),
            HelperKind::ToCase => ToCaseHelper.call(params),
            HelperKind::ToFlat => ToFlatHelper.call(params),
            HelperKind::ToJavaPackage => ToJavaPackageHelper.call(params),
            HelperKind::ToJavaPackagePath => ToJavaPackagePathHelper.call(params),
        }
    }
}

/// Every helper, in the order in which a registry takes them in.
pub fn all_helpers() -> (v: Vec<HelperKind>)
    ensures
        v@ == seq![
            HelperKind::ToUpper,
            HelperKind::ToLower,
            HelperKind::ToTitle,
            HelperKind::ToCase,
            HelperKind::ToFlat,
            HelperKind::ToJavaPackage,
            HelperKind::ToJavaPackagePath,
        ],
{
    let v = vec![
        HelperKind::ToUpper,
        HelperKind::ToLower,
        HelperKind::ToTitle,
        HelperKind::ToCase,
        HelperKind::ToFlat,
        HelperKind::ToJavaPackage,
        HelperKind::ToJavaPackagePath,
    ];
    assert(v@ =~= seq![
        HelperKind::ToUpper,
        HelperKind::ToLower,
        HelperKind::ToTitle,
        HelperKind::ToCase,
        HelperKind::ToFlat,
        HelperKind::ToJavaPackage,
        HelperKind::ToJavaPackagePath,
    ]);
    v
}

/// Calls `Handlebars::new`: a registry with the engine's own helpers, HTML
/// escaping and no strict mode.
#[verifier::external_body]
fn empty_registry() -> Handlebars<'static> {
    Handlebars::new()
}

/// The names under which `registry` holds a helper.
pub uninterp spec fn helper_names(registry: Handlebars<'static>) -> Set<Seq<char>>;

/// Whether `names` holds the name of every helper of this library.
pub open spec fn holds_every_helper(names: Set<Seq<char>>) -> bool {
    forall|kind: HelperKind| names.contains(#[trigger] kind.spec_name())
}

/// Calls `Handlebars::register_helper` with `name` and a closure that
/// renders the parameters of a call, hands them to `HelperKind::run` and
/// writes what comes back, or fails with the message that comes back. The
/// registry then holds a helper under `name`, besides those it held.
#[verifier::external_body]
fn register(registry: &mut Handlebars<'static>, name: &str, kind: HelperKind)
    ensures
        helper_names(*final(registry)) == helper_names(*old(registry)).insert(name@),
{
    let helper = move |h: &Helper, _: &Handlebars, _: &Context, _: &mut RenderContext, out: &mut dyn Output| -> HelperResult {
        let params: Vec<String> = h.params().iter().map(|p| p.value().render()).collect();
        out.write(&kind.run(&params).map_err(RenderError::new)?)?;
        Ok(())
    };
    registry.register_helper(name, Box::new(helper));
}

/// What the engine, with this library's helpers, makes of `template`
/// against `context`: the rendered text, or the text of its error.
pub uninterp spec fn engine_rendered(template: Seq<char>, context: Map<Seq<char>, Seq<char>>) -> Result<
    Seq<char>,
    Seq<char>,
>;

/// The opening brace.
pub const OPEN_BRACE: char = '\x7b';

/// Whether a tag begins in `s` at index `i`: two opening braces in a row.
pub open spec fn marker_at(s: Seq<char>, i: int) -> bool {
    0 <= i && i + 1 < s.len() && s[i] == OPEN_BRACE && s[i + 1] == OPEN_BRACE
}

/// Whether `s` holds two opening braces in a row, with which every tag of a
/// template begins.
pub open spec fn has_marker(s: Seq<char>) -> bool {
    exists|i: int| #[trigger] marker_at(s, i)
}

/// Whether `c` may stand between the opening braces of a tag and the sign
/// that makes the tag a partial or a decorator: a tilde, a hash or a blank.
pub open spec fn passed_over(c: char) -> bool {
    c == '~' || c == '#' || c == ' ' || c == '\t' || c == '\n' || c == '\r'
}

/// Whether, from index `j` of `s` on, only such characters stand before a
/// `>` or a `*`.
pub open spec fn partial_follows(s: Seq<char>, j: int) -> bool
    decreases s.len() - j,
{
    if j < 0 || j >= s.len() {
        false
    } else if s[j] == '>' || s[j] == '*' {
        true
    } else if passed_over(s[j]) {
        partial_follows(s, j + 1)
    } else {
        false
    }
}

/// Whether `s` holds a tag that calls or defines a partial or a decorator.
/// Such a template can include itself without end, so none is rendered.
pub open spec fn calls_partial(s: Seq<char>) -> bool {
    exists|i: int| #[trigger] marker_at(s, i) && partial_follows(s, i + 2)
}

/// What `template` is rendered to against `context`; `None` where it is
/// not rendered.
pub open spec fn rendered(template: Seq<char>, context: Map<Seq<char>, Seq<char>>) -> Option<
    Seq<char>,
> {
    if calls_partial(template) {
        None
    } else {
        match engine_rendered(template, context) {
            Ok(s) => Some(s),
            Err(_) => None,
        }
    }
}

/// The message for a template that calls a partial.
pub open spec fn partial_message() -> Seq<char> {
    "partials and decorators are not supported"@
}

/// The message of the error for a template that is not rendered.
pub open spec fn render_failure(template: Seq<char>, context: Map<Seq<char>, Seq<char>>) -> Seq<
    char,
> {
    if calls_partial(template) {
        partial_message()
    } else {
        match engine_rendered(template, context) {
            Ok(_) => Seq::empty(),
            Err(text) => text,
        }
    }
}

fn follows_partial(s: &Vec<char>, start: usize) -> (r: bool)
    requires
        start <= s@.len(),
    ensures
        r == partial_follows(s@, start as int),
{
    let mut j: usize = start;
    while j < s.len()
        invariant
            start <= j <= s@.len(),
            partial_follows(s@, start as int) == partial_follows(s@, j as int),
        decreases s@.len() - j,
    {
        let c = s[j];
        if c == '>' || c == '*' {
            return true;
        }
        if !(c == '~' || c == '#' || c == ' ' || c == '\t' || c == '\n' || c == '\r') {
            return false;
        }
        j += 1;
    }
    false
}

/// Finds out whether a template calls or defines a partial or a decorator.
pub fn has_partial(text: &str) -> (b: bool)
    ensures
        b == calls_partial(text@),
{
    let s = chars_of(text);
    let mut i: usize = 0;
    while i < s.len() && s.len() - i >= 2
        invariant
            i <= s@.len(),
            s@ == text@,
            forall|k: int| 0 <= k < i ==> !(#[trigger] marker_at(s@, k) && partial_follows(s@, k + 2)),
        decreases s@.len() - i,
    {
        if s[i] == OPEN_BRACE && s[i + 1] == OPEN_BRACE {
            if follows_partial(&s, i + 2) {
                assert(marker_at(s@, i as int));
                return true;
            }
        }
        i += 1;
    }
    false
}

/// The renderer with its registry.
pub struct ProcessorCore {
    handlebars: Handlebars<'static>,
}

/// Calls `Handlebars::render_template` on the registry of `core` with the
/// names and values of `pairs` as a map from names to strings. What comes
/// back, the text or the text that the error's `Display` writes, is given
/// the name `engine_rendered`. Templates that call a partial are left out:
/// the engine can follow a partial that includes itself without end. The
/// engine's grammar reads a text without two opening braces in a row as one
/// piece of raw text, which it writes out unchanged: that is stated too.
#[verifier::external_body]
fn render_template(core: &ProcessorCore, text: &str, pairs: &Vec<(String, String)>) -> (r: Result<
    String,
    String,
>)
    requires
        holds_every_helper(core.helpers()),
        !calls_partial(text@),
        names_distinct(pairs_of(pairs@)),
    ensures
        match r {
            Ok(s) => engine_rendered(text@, map_of(pairs_of(pairs@))) == Ok::<
                Seq<char>,
                Seq<char>,
            >(s@),
            Err(e) => engine_rendered(text@, map_of(pairs_of(pairs@))) == Err::<
                Seq<char>,
                Seq<char>,
            >(e@),
        },
        !has_marker(text@) ==> r is Ok && r->Ok_0@ == text@,
{
    let data: BTreeMap<&str, &str> = pairs.iter().map(|p| (p.0.as_str(), p.1.as_str())).collect();
    core.handlebars.render_template(text, &data).map_err(|e| e.to_string())
}

impl ProcessorCore {
    /// The names under which the registry holds a helper.
    pub closed spec fn helpers(&self) -> Set<Seq<char>> {
        helper_names(self.handlebars)
    }

    /// The registry holds every helper of this library.
    #[verifier::type_invariant]
    pub open spec fn wf(&self) -> bool {
        holds_every_helper(self.helpers())
    }

    /// A renderer whose registry holds every helper of this library.
    pub fn new() -> (core: Self)
        ensures
            holds_every_helper(core.helpers()),
    {
        let mut handlebars = empty_registry();
        let helpers = all_helpers();
        let mut i: usize = 0;
        while i < helpers.len()
            invariant
                i <= helpers@.len(),
                forall|j: int|
                    0 <= j < i ==> helper_names(handlebars).contains(
                        (#[trigger] helpers@[j]).spec_name(),
                    ),
            decreases helpers@.len() - i,
        {
            register(&mut handlebars, helpers[i].name(), helpers[i]);
            i += 1;
        }
        assert forall|kind: HelperKind|
            helper_names(handlebars).contains(#[trigger] kind.spec_name()) by {
            let j: int = match kind {
                HelperKind::ToUpper => 0,
                HelperKind::ToLower => 1,
                HelperKind::ToTitle => 2,
                HelperKind::ToCase => 3,
                HelperKind::ToFlat => 4,
                HelperKind::ToJavaPackage => 5,
                HelperKind::ToJavaPackagePath => 6,
            };
            assert(helpers@[j] == kind);
        }
        ProcessorCore { handlebars }
    }

    /// Renders `text` against `context`. A text that calls a partial is
    /// refused; a text without a tag comes back as it is.
    pub fn process(&self, text: &str, context: &StdContext) -> (r: Result<String, BrixError>)
        ensures
            match r {
                Ok(s) => rendered(text@, context@) == Some(s@),
                Err(e) => rendered(text@, context@) is None && e.kind == Some(
                    BrixErrorKind::Template,
                ) && e.message@ == render_failure(text@, context@),
            },
            calls_partial(text@) ==> r is Err && r->Err_0.kind == Some(BrixErrorKind::Template),
            !has_marker(text@) ==> r is Ok && r->Ok_0@ == text@,
    {
        proof {
            use_type_invariant(self);
        }
        if has_partial(text) {
            return Err(
                BrixError {
                    kind: Some(BrixErrorKind::Template),
                    message: String::from_str("partials and decorators are not supported"),
                },
            );
        }
        let pairs = context.to_pairs();
        match render_template(self, text, &pairs) {
            Ok(s) => Ok(s),
            Err(message) => Err(BrixError { kind: Some(BrixErrorKind::Template), message }),
        }
    }
}

} // verus!
