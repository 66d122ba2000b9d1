use rusticity::profile::{filter_profiles, lines_vec, role_label, trim_text, Profile};

fn sample() -> Vec<Profile> {
    let config = "[default]\nregion = us-east-1\n\n[profile dev]\r\nregion=eu-west-1\nrole_arn = arn:aws:iam::123456789012:role/DevRole\nsource_profile = default\n";
    let credentials = "[default]\naws_access_key_id = X\n  [other]  \n";
    Profile::from_files(Some(config), Some(credentials))
}

#[test]
fn profiles_from_config_then_credentials() {
    let ps = sample();
    assert_eq!(ps.len(), 3);
    assert_eq!(ps[0].name, "default");
    assert_eq!(ps[0].region.as_deref(), Some("us-east-1"));
    assert_eq!(ps[0].role_arn, None);
    assert_eq!(ps[1].name, "dev");
    assert_eq!(ps[1].region.as_deref(), Some("eu-west-1"));
    assert_eq!(ps[1].role_arn.as_deref(), Some("arn:aws:iam::123456789012:role/DevRole"));
    assert_eq!(ps[1].source_profile.as_deref(), Some("default"));
    assert_eq!(ps[1].account, None);
    assert_eq!(ps[2].name, "other");
    assert_eq!(ps[2].region, None);
}

#[test]
fn profiles_without_files() {
    assert!(Profile::from_files(None, None).is_empty());
    let ps = Profile::from_files(None, Some("[a]\n[b]\n[a]\n"));
    let names: Vec<&str> = ps.iter().map(|p| p.name.as_str()).collect();
    assert_eq!(names, vec!["a", "b"]);
}

#[test]
fn settings_before_first_section_go_to_it() {
    let ps = Profile::from_files(Some("region = x\n[a]\n[b]\nregion = y"), None);
    assert_eq!(ps.len(), 2);
    assert_eq!(ps[0].region.as_deref(), Some("x"));
    assert_eq!(ps[1].region.as_deref(), Some("y"));
}

#[test]
fn unknown_keys_and_plain_lines_are_ignored() {
    let ps = Profile::from_files(Some("[p]\noutput = json\nnot a setting\nregion = a=b\n"), None);
    assert_eq!(ps.len(), 1);
    assert_eq!(ps[0].region.as_deref(), Some("a=b"));
}

#[test]
fn filter_profiles_sorts_by_name() {
    let ps = Profile::from_files(None, Some("[zeta]\n[alpha]\n[mid]\n"));
    let all: Vec<&str> = filter_profiles(&ps, "").iter().map(|p| p.name.as_str()).collect();
    assert_eq!(all, vec!["alpha", "mid", "zeta"]);
}

#[test]
fn filter_profiles_matches_any_field_ignoring_case() {
    let ps = sample();
    let dev: Vec<&str> = filter_profiles(&ps, "DEV").iter().map(|p| p.name.as_str()).collect();
    assert_eq!(dev, vec!["dev"]);
    let by_region: Vec<&str> = filter_profiles(&ps, "us-east").iter().map(|p| p.name.as_str()).collect();
    assert_eq!(by_region, vec!["default"]);
    let by_source: Vec<&str> = filter_profiles(&ps, "default").iter().map(|p| p.name.as_str()).collect();
    assert_eq!(by_source, vec!["default", "dev"]);
    assert!(filter_profiles(&ps, "nothing").is_empty());
}

#[test]
fn role_label_shortens_arns() {
    let ps = sample();
    assert_eq!(role_label(&ps[1]), "role/DevRole");
    assert_eq!(role_label(&ps[0]), "");
    let user = Profile {
        name: "u".to_string(),
        region: None,
        account: None,
        role_arn: Some("arn:aws:iam::1:user/team/alice".to_string()),
        source_profile: None,
    };
    assert_eq!(role_label(&user), "user/alice");
    let plain = Profile { role_arn: Some("admin".to_string()), ..user };
    assert_eq!(role_label(&plain), "admin");
}

#[test]
fn lines_and_trim_follow_std() {
    let text = "a\r\n\n b \nlast";
    let got = lines_vec(text);
    let want: Vec<String> = text.lines().map(|l| l.to_string()).collect();
    assert_eq!(got, want);
    assert_eq!(trim_text("  x y \t"), "x y");
    assert_eq!(trim_text(""), "");
}
