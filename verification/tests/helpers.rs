use brix::context::StdContext;
use brix::helpers::{
    ToCaseHelper, ToFlatHelper, ToJavaPackageHelper, ToJavaPackagePathHelper, ToLowerHelper,
    ToTitleHelper, ToUpperHelper,
};
use brix::processor::{all_helpers, HelperKind, ProcessorCore};

fn context(pairs: &[(&str, &str)]) -> StdContext {
    let mut context = StdContext::new();
    for (key, value) in pairs {
        context.insert(key.to_string(), value.to_string());
    }
    context
}

fn line_assert(contents: String, assertion: Vec<&str>) -> bool {
    let mut itr = 0;
    for line in contents.lines() {
        if assertion[itr] != line {
            println!("line {}: expected {:?}, got {:?}", itr, assertion[itr], line);
            return false;
        }
        itr += 1;
    }
    itr == assertion.len()
}

fn template(helper: &str, names: &[&str]) -> String {
    names.iter().map(|name| format!("{{{{{} {}}}}}\n", helper, name)).collect()
}

const TO_CASE_ASSERTIONS: [&str; 169] = [
    "t hIS i s t oGGLE c aSE",
    "tHIS iS pASCAL cASE",
    "tHIS iS cAMEL cASE",
    "tHIS iS uPPER cAMEL cASE",
    "tHIS iS sNAKE cASE",
    "tHIS iS uPPER sNAKE cASE",
    "tHIS iS sCREAMING sNAKE cASE",
    "tHIS iS kEBAB cASE",
    "tHIS iS cOBOL cASE",
    "tHIS iS tRAIN cASE",
    "tHISISFLATCASE",
    "tHISISUPPERFLATCASE",
    "t hI s i s a lT eR nA tI nG cA sE",
    "THisISTOggleCAse",
    "ThisIsPascalCase",
    "ThisIsCamelCase",
    "ThisIsUpperCamelCase",
    "ThisIsSnakeCase",
    "ThisIsUpperSnakeCase",
    "ThisIsScreamingSnakeCase",
    "ThisIsKebabCase",
    "ThisIsCobolCase",
    "ThisIsTrainCase",
    "Thisisflatcase",
    "Thisisupperflatcase",
    "THiSISALtErNaTiNgCaSe",
    "tHisISTOggleCAse",
    "thisIsPascalCase",
    "thisIsCamelCase",
    "thisIsUpperCamelCase",
    "thisIsSnakeCase",
    "thisIsUpperSnakeCase",
    "thisIsScreamingSnakeCase",
    "thisIsKebabCase",
    "thisIsCobolCase",
    "thisIsTrainCase",
    "thisisflatcase",
    "thisisupperflatcase",
    "tHiSISALtErNaTiNgCaSe",
    "THisISTOggleCAse",
    "ThisIsPascalCase",
    "ThisIsCamelCase",
    "ThisIsUpperCamelCase",
    "ThisIsSnakeCase",
    "ThisIsUpperSnakeCase",
    "ThisIsScreamingSnakeCase",
    "ThisIsKebabCase",
    "ThisIsCobolCase",
    "ThisIsTrainCase",
    "Thisisflatcase",
    "Thisisupperflatcase",
    "THiSISALtErNaTiNgCaSe",
    "t_his_i_s_t_oggle_c_ase",
    "this_is_pascal_case",
    "this_is_camel_case",
    "this_is_upper_camel_case",
    "this_is_snake_case",
    "this_is_upper_snake_case",
    "this_is_screaming_snake_case",
    "this_is_kebab_case",
    "this_is_cobol_case",
    "this_is_train_case",
    "thisisflatcase",
    "thisisupperflatcase",
    "t_hi_s_i_s_a_lt_er_na_ti_ng_ca_se",
    "T_HIS_I_S_T_OGGLE_C_ASE",
    "THIS_IS_PASCAL_CASE",
    "THIS_IS_CAMEL_CASE",
    "THIS_IS_UPPER_CAMEL_CASE",
    "THIS_IS_SNAKE_CASE",
    "THIS_IS_UPPER_SNAKE_CASE",
    "THIS_IS_SCREAMING_SNAKE_CASE",
    "THIS_IS_KEBAB_CASE",
    "THIS_IS_COBOL_CASE",
    "THIS_IS_TRAIN_CASE",
    "THISISFLATCASE",
    "THISISUPPERFLATCASE",
    "T_HI_S_I_S_A_LT_ER_NA_TI_NG_CA_SE",
    "T_HIS_I_S_T_OGGLE_C_ASE",
    "THIS_IS_PASCAL_CASE",
    "THIS_IS_CAMEL_CASE",
    "THIS_IS_UPPER_CAMEL_CASE",
    "THIS_IS_SNAKE_CASE",
    "THIS_IS_UPPER_SNAKE_CASE",
    "THIS_IS_SCREAMING_SNAKE_CASE",
    "THIS_IS_KEBAB_CASE",
    "THIS_IS_COBOL_CASE",
    "THIS_IS_TRAIN_CASE",
    "THISISFLATCASE",
    "THISISUPPERFLATCASE",
    "T_HI_S_I_S_A_LT_ER_NA_TI_NG_CA_SE",
    "t-his-i-s-t-oggle-c-ase",
    "this-is-pascal-case",
    "this-is-camel-case",
    "this-is-upper-camel-case",
    "this-is-snake-case",
    "this-is-upper-snake-case",
    "this-is-screaming-snake-case",
    "this-is-kebab-case",
    "this-is-cobol-case",
    "this-is-train-case",
    "thisisflatcase",
    "thisisupperflatcase",
    "t-hi-s-i-s-a-lt-er-na-ti-ng-ca-se",
    "T-HIS-I-S-T-OGGLE-C-ASE",
    "THIS-IS-PASCAL-CASE",
    "THIS-IS-CAMEL-CASE",
    "THIS-IS-UPPER-CAMEL-CASE",
    "THIS-IS-SNAKE-CASE",
    "THIS-IS-UPPER-SNAKE-CASE",
    "THIS-IS-SCREAMING-SNAKE-CASE",
    "THIS-IS-KEBAB-CASE",
    "THIS-IS-COBOL-CASE",
    "THIS-IS-TRAIN-CASE",
    "THISISFLATCASE",
    "THISISUPPERFLATCASE",
    "T-HI-S-I-S-A-LT-ER-NA-TI-NG-CA-SE",
    "T-His-I-S-T-Oggle-C-Ase",
    "This-Is-Pascal-Case",
    "This-Is-Camel-Case",
    "This-Is-Upper-Camel-Case",
    "This-Is-Snake-Case",
    "This-Is-Upper-Snake-Case",
    "This-Is-Screaming-Snake-Case",
    "This-Is-Kebab-Case",
    "This-Is-Cobol-Case",
    "This-Is-Train-Case",
    "Thisisflatcase",
    "Thisisupperflatcase",
    "T-Hi-S-I-S-A-Lt-Er-Na-Ti-Ng-Ca-Se",
    "thisistogglecase",
    "thisispascalcase",
    "thisiscamelcase",
    "thisisuppercamelcase",
    "thisissnakecase",
    "thisisuppersnakecase",
    "thisisscreamingsnakecase",
    "thisiskebabcase",
    "thisiscobolcase",
    "thisistraincase",
    "thisisflatcase",
    "thisisupperflatcase",
    "thisisalternatingcase",
    "THISISTOGGLECASE",
    "THISISPASCALCASE",
    "THISISCAMELCASE",
    "THISISUPPERCAMELCASE",
    "THISISSNAKECASE",
    "THISISUPPERSNAKECASE",
    "THISISSCREAMINGSNAKECASE",
    "THISISKEBABCASE",
    "THISISCOBOLCASE",
    "THISISTRAINCASE",
    "THISISFLATCASE",
    "THISISUPPERFLATCASE",
    "THISISALTERNATINGCASE",
    "t HiS i S t OgGlE c AsE",
    "tHiS iS pAsCaL cAsE",
    "tHiS iS cAmEl CaSe",
    "tHiS iS uPpEr CaMeL cAsE",
    "tHiS iS sNaKe CaSe",
    "tHiS iS uPpEr SnAkE cAsE",
    "tHiS iS sCrEaMiNg SnAkE cAsE",
    "tHiS iS kEbAb CaSe",
    "tHiS iS cObOl CaSe",
    "tHiS iS tRaIn CaSe",
    "tHiSiSfLaTcAsE",
    "tHiSiSuPpErFlAtCaSe",
    "t Hi S i S a Lt Er Na Ti Ng Ca Se",
];

#[test]
fn to_case() {
    let core = ProcessorCore::new();
    let context = context(&[
        ("one", "tHIS iS tOGGLE cASE"),
        ("two", "ThisIsPascalCase"),
        ("three", "thisIsCamelCase"),
        ("four", "ThisIsUpperCamelCase"),
        ("five", "this_is_snake_case"),
        ("six", "THIS_IS_UPPER_SNAKE_CASE"),
        ("seven", "THIS_IS_SCREAMING_SNAKE_CASE"),
        ("eight", "this-is-kebab-case"),
        ("nine", "THIS-IS-COBOL-CASE"),
        ("ten", "This-Is-Train-Case"),
        ("eleven", "thisisflatcase"),
        ("twelve", "THISISUPPERFLATCASE"),
        ("thirteen", "tHiS iS aLtErNaTiNg CaSe"),
    ]);
    let names = [
        "one", "two", "three", "four", "five", "six", "seven", "eight", "nine", "ten", "eleven",
        "twelve", "thirteen",
    ];
    let cases = [
        "toggle", "pascal", "camel", "upper-camel", "snake", "upper-snake", "screaming-snake",
        "kebab", "cobol", "train", "flat", "upper-flat", "alternating",
    ];
    let contents: String =
        cases.iter().map(|case| template(&format!("to-case \"{}\"", case), &names)).collect();

    let result = core.process(&contents, &context).unwrap();
    assert!(line_assert(result, TO_CASE_ASSERTIONS.to_vec()))
}

#[test]
fn to_lower() {
    let core = ProcessorCore::new();
    let context =
        context(&[("one", "ALLUPPER"), ("two", "already_lower"), ("three", "mIxEd.cAsE")]);
    let contents = template("to-lower", &["one", "two", "three"]);

    let result = core.process(&contents, &context).unwrap();
    assert!(line_assert(result, vec!["allupper", "already_lower", "mixed.case"]))
}

#[test]
fn to_title() {
    let core = ProcessorCore::new();
    let context = context(&[
        ("one", "oneword"),
        ("two", "Already in the Title Case"),
        ("three", "I AM YELLING"),
    ]);
    let contents = template("to-title", &["one", "two", "three"]);

    let result = core.process(&contents, &context).unwrap();
    assert!(line_assert(result, vec!["Oneword", "Already in the Title Case", "I Am Yelling"]))
}

#[test]
fn to_upper() {
    let core = ProcessorCore::new();
    let context =
        context(&[("one", "alllower"), ("two", "ALREADY_UPPER"), ("three", "mIxEd.cAsE")]);
    let contents = template("to-upper", &["one", "two", "three"]);

    let result = core.process(&contents, &context).unwrap();
    assert!(line_assert(result, vec!["ALLLOWER", "ALREADY_UPPER", "MIXED.CASE"]))
}

fn params(values: &[&str]) -> Vec<String> {
    values.iter().map(|v| v.to_string()).collect()
}

#[test]
fn helpers_change_their_value() {
    assert_eq!(ToUpperHelper.call(&params(&["abc"])), Ok("ABC".to_string()));
    assert_eq!(ToLowerHelper.call(&params(&["AbC"])), Ok("abc".to_string()));
    assert_eq!(ToTitleHelper.call(&params(&["a tale of two cities"])), Ok("A Tale of Two Cities".to_string()));
    assert_eq!(ToFlatHelper.call(&params(&["My Widget"])), Ok("mywidget".to_string()));
    assert_eq!(ToJavaPackageHelper.call(&params(&["myWidget2Go"])), Ok("my.widget2go".to_string()));
    assert_eq!(
        ToJavaPackagePathHelper.call(&params(&["myWidget2Go"])),
        Ok("my/widget2go".to_string())
    );
    assert_eq!(ToCaseHelper.call(&params(&["snake", "myWidget"])), Ok("my_widget".to_string()));
    assert_eq!(
        ToCaseHelper.call(&params(&["UpperCamel", "my widget"])),
        Ok("MyWidget".to_string())
    );
}

#[test]
fn helpers_without_a_value_complain() {
    let none = params(&[]);
    let message = Err("this function requires an argument to process".to_string());
    assert_eq!(ToUpperHelper.call(&none), message);
    assert_eq!(ToLowerHelper.call(&none), message);
    assert_eq!(ToTitleHelper.call(&none), message);
    assert_eq!(ToFlatHelper.call(&none), message);
    assert_eq!(ToJavaPackageHelper.call(&none), message);
    assert_eq!(ToJavaPackagePathHelper.call(&none), message);
    assert_eq!(
        ToCaseHelper.call(&none),
        Err("case type (e.g. 'snake' or 'camel') not specified".to_string())
    );
}

#[test]
fn to_case_errors() {
    assert_eq!(
        ToCaseHelper.call(&params(&["snake"])),
        Err("argument to process not specified".to_string())
    );
    assert_eq!(
        ToCaseHelper.call(&params(&["sponge", "x"])),
        Err("case 'sponge' not supported".to_string())
    );
    assert_eq!(
        ToCaseHelper.call(&params(&["", "x"])),
        Err("try putting the name of your desired case in quotation marks e.g. \"snake\""
            .to_string())
    );
}

#[test]
fn helper_errors_fail_the_rendering() {
    let core = ProcessorCore::new();
    let error = core.process("{{to-upper}}", &context(&[])).unwrap_err();
    assert_eq!(error.kind, Some(brix::errors::BrixErrorKind::Template));
    assert!(error.message.contains("this function requires an argument to process"));
}

#[test]
fn every_helper_has_its_name() {
    let names: Vec<&str> = all_helpers().iter().map(|h| h.name()).collect();
    assert_eq!(
        names,
        [
            "to-upper",
            "to-lower",
            "to-title",
            "to-case",
            "to-flat",
            "to-java-package",
            "to-java-package-path"
        ]
    );
    assert_eq!(HelperKind::ToFlat.run(&params(&["A b"])), Ok("ab".to_string()));
}

#[test]
fn java_package_helpers_in_templates() {
    let core = ProcessorCore::new();
    let context = context(&[("name", "orderService")]);
    assert_eq!(
        core.process("{{to-java-package name}} {{to-java-package-path name}} {{to-flat name}}", &context)
            .unwrap(),
        "order.service order/service orderservice"
    );
}
