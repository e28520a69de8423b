use shuu::ai::{
    branch_name_from, build_prompt, fallback_branch_name, generate_branch_name, read_proposal,
};

#[test]
fn test_build_prompt_without_feedback() {
    let prompt = build_prompt("add login feature", "");
    assert!(prompt.contains("add login feature"));
    assert!(!prompt.contains("Feedback"));
}

#[test]
fn test_build_prompt_with_feedback() {
    let prompt = build_prompt("add login feature", "use oauth instead");
    assert!(prompt.contains("add login feature"));
    assert!(prompt.contains("Feedback on previous suggestion: use oauth instead"));
}

#[test]
fn test_build_prompt_contains_rules() {
    let prompt = build_prompt("anything", "");
    assert!(prompt.contains("kebab-case"));
    assert!(prompt.contains("feat/, fix/, refactor/"));
}

#[test]
fn test_fallback_branch_name_simple() {
    assert_eq!(fallback_branch_name("add login"), "feat/add-login");
}

#[test]
fn test_fallback_branch_name_uppercase() {
    assert_eq!(
        fallback_branch_name("Add Login Feature"),
        "feat/add-login-feature"
    );
}

#[test]
fn test_fallback_branch_name_special_chars() {
    assert_eq!(
        fallback_branch_name("fix: user's email bug!"),
        "feat/fix-user-s-email-bug"
    );
}

#[test]
fn test_fallback_branch_name_long_description() {
    let long_desc =
        "this is a very long description that should be truncated at forty characters exactly";
    let result = fallback_branch_name(long_desc);
    assert!(result.len() <= 45);
    assert!(result.starts_with("feat/"));
}

#[test]
fn test_fallback_branch_name_leading_trailing_special() {
    assert_eq!(fallback_branch_name("  hello world  "), "feat/hello-world");
}

#[test]
fn build_prompt_is_the_rules_then_the_description_then_the_feedback() {
    let head = "Suggest exactly one git branch name for the following implementation.\n\
                Rules:\n\
                - kebab-case\n\
                - English\n\
                - Short and concise (2-4 words)\n\
                - Use prefix: feat/, fix/, refactor/, etc.\n\
                - Output only the branch name (no explanation)\n\
                \n\
                Implementation: ";
    assert_eq!(build_prompt("x y", ""), format!("{}x y", head));
    assert_eq!(
        build_prompt("x y", "shorter"),
        format!("{}x y\n\nFeedback on previous suggestion: shorter", head)
    );
}

#[test]
fn fallback_cuts_at_forty_characters_and_trims_again() {
    let long_desc =
        "this is a very long description that should be truncated at forty characters exactly";
    assert_eq!(
        fallback_branch_name(long_desc),
        "feat/this-is-a-very-long-description-that-sho"
    );
    // the fortieth character is a hyphen, which goes as well
    let desc = "aaaaaaaaa bbbbbbbbb ccccccccc ddddddddd eeeee";
    assert_eq!(
        fallback_branch_name(desc),
        "feat/aaaaaaaaa-bbbbbbbbb-ccccccccc-ddddddddd"
    );
}

#[test]
fn fallback_makes_one_hyphen_of_every_run() {
    assert_eq!(fallback_branch_name("a   b"), "feat/a-b");
    assert_eq!(fallback_branch_name("a -- b ---- c"), "feat/a-b-c");
    assert_eq!(fallback_branch_name(""), "feat/");
    assert_eq!(fallback_branch_name("!!!"), "feat/");
    assert_eq!(fallback_branch_name("--x--"), "feat/x");
}

#[test]
fn fallback_lowers_the_case_by_unicode_rules() {
    assert_eq!(fallback_branch_name("ADD Login2FA"), "feat/add-login2fa");
    // the Kelvin sign lowers to the letter k
    assert_eq!(fallback_branch_name("5\u{212a} run"), "feat/5k-run");
    assert_eq!(fallback_branch_name("ÉCOLE nine"), "feat/cole-nine");
    assert_eq!(fallback_branch_name("日本語 words"), "feat/words");
}

#[test]
fn fallback_shape_holds_on_many_inputs() {
    let inputs = [
        "",
        "-",
        "a",
        "A-",
        "fix: user's email bug!",
        "0123456789012345678901234567890123456789",
        "0123456789012345678901234567890123456789x",
        "012345678901234567890123456789012345678 x",
        "x                                                                y",
    ];
    for input in inputs {
        let name = fallback_branch_name(input);
        assert!(name.starts_with("feat/"), "{:?}", name);
        assert!(name.chars().count() <= 45, "{:?}", name);
        assert!(!name.ends_with('-'), "{:?}", name);
        assert!(!name.contains("--"), "{:?}", name);
        assert_eq!(name, fallback_branch_name(input));
    }
}

#[test]
fn branch_name_from_takes_its_input_as_it_is() {
    assert_eq!(branch_name_from("add login"), "feat/add-login");
    // no lowering here: capitals are letters and stay
    assert_eq!(branch_name_from("Add Login"), "feat/Add-Login");
}

#[test]
fn generate_prefers_a_proposal_that_is_not_empty() {
    assert_eq!(
        generate_branch_name("Add Login", Some("  fix/login-flow \r\nsecond line\n")),
        "fix/login-flow"
    );
    assert_eq!(generate_branch_name("Add Login", Some("")), "feat/add-login");
    assert_eq!(generate_branch_name("Add Login", Some("   \nname\n")), "feat/add-login");
    assert_eq!(generate_branch_name("Add Login", None), "feat/add-login");
    assert_eq!(read_proposal("\n"), None);
    assert_eq!(read_proposal("a b\n").as_deref(), Some("a b"));
}
