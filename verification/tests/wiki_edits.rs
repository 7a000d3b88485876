use arma3_wiki::wiki_edit::{
    edit_body, extract, regex_contains, regex_replace, try_regex_contains, try_regex_replace,
    CommunityDetails,
};

#[test]
fn session_cookies() {
    let d = CommunityDetails::new("s".to_string(), "t".to_string(), "1".to_string(), "me".to_string(), "y".to_string());
    assert_eq!(
        d.cookies(),
        vec![
            "community_session=s".to_string(),
            "communityToken=t".to_string(),
            "communityUserID=1".to_string(),
            "communityUserName=me".to_string(),
            "_shopify_y=y".to_string(),
        ]
    );
}

#[test]
fn edit_form_fields() {
    let page = r#"<input type="hidden" value="abc+\" name="wpEditToken"/><input value="12" name="editRevId"/><input type="hidden" value="777" name="editRevId"/>"#;
    assert_eq!(extract("wpEditToken", page), Some(r"abc+\".to_string()));
    assert_eq!(extract("editRevId", page), Some("12".to_string()));
    assert_eq!(extract("missing", page), None);
}

#[test]
fn edit_request_body() {
    let body = edit_body("set Rain", "a&b", "x+\\", "12");
    assert_eq!(
        body,
        "action=edit&format=json&formatversion=2&title=set%20Rain&section=0&summary=&minor=true&contentmodel=wikitext&contentformat=text%2Fx-wiki&baserevid=12&text=a%26b&token=x%2B%5C"
    );
}

#[test]
fn searching_and_replacing() {
    assert!(regex_contains("setRain 1", false, "Rain"));
    assert!(!regex_contains("setRain 1", false, "Fog"));
    assert!(regex_contains("setRain 1", true, r"R\w+ \d"));
    assert_eq!(regex_replace("a1b22", true, r"(\d+)", "<$1>"), "a<1>b<22>");
    assert_eq!(regex_replace("a-b-c", false, "-", "+"), "a+b+c");
    assert_eq!(regex_replace("ab", false, "", "-"), "ab".replace("", "-"));
    assert_eq!(try_regex_contains("x", true, "("), None);
    assert_eq!(try_regex_replace("x", true, "(", "y"), None);
    assert_eq!(try_regex_replace("x", false, "(", "y"), Some("x".to_string()));
    assert_eq!(try_regex_contains("x(", false, "("), Some(true));
}
