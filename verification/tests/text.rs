use trustify::text::starts_with;

#[test]
fn starts_with_matches_std() {
    for (s, p) in [("CVE-2021-1", "CVE-"), ("CVE", "CVE-"), ("", ""), ("abc", ""), ("äbc", "ä"), ("abc", "abd")] {
        assert_eq!(starts_with(s, p), s.starts_with(p), "{s:?} {p:?}");
    }
}
