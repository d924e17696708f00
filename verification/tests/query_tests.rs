use wikirandom::api::{
    all_categories_query, category_members_query, details_query, ContinuationToken,
    QueryDescriptor,
};

#[test]
fn test_all_categories_query_params() {
    let q = all_categories_query("Lists_of_colors");
    assert_eq!(
        q.to_query_string(),
        "action=query&format=json&list=allcategories&acmin=1&aclimit=20&acprop=size\
         &acprefix=Lists_of_colors"
    );
}

#[test]
fn test_category_members_query_params() {
    let q = category_members_query("Category:Lists_of_colors");
    assert_eq!(
        q.to_query_string(),
        "action=query&format=json&list=categorymembers&cmtitle=Category:Lists_of_colors\
         &cmtype=page|subcat&cmprop=ids|title|type|timestamp&cmlimit=500"
    );
}

#[test]
fn test_details_query_params() {
    let q = details_query("Death");
    assert_eq!(
        q.to_query_string(),
        "action=query&format=json&prop=info|extracts&titles=Death&inprop=url|displaytitle\
         &exchars=1000&exlimit=1&explaintext=1"
    );
}

#[test]
fn test_query_title_is_encoded() {
    let q = category_members_query("Category:Lists of colors");
    assert!(q.to_query_string().contains("cmtitle=Category:Lists%20of%20colors"));
}

#[test]
fn test_continue_query_merges_and_replaces() {
    let mut q = category_members_query("Category:X");
    let tok = ContinuationToken {
        pairs: vec![
            ("cmcontinue".to_string(), "page|abc|123".to_string()),
            ("continue".to_string(), "-||".to_string()),
        ],
    };
    q.continue_query(&tok);
    let s = q.to_query_string();
    assert!(s.contains("cmcontinue=page|abc|123"));
    assert!(s.contains("continue=-||"));

    let tok2 = ContinuationToken {
        pairs: vec![("cmcontinue".to_string(), "page|def|456".to_string())],
    };
    q.continue_query(&tok2);
    let s2 = q.to_query_string();
    assert!(s2.contains("cmcontinue=page|def|456"));
    assert!(!s2.contains("abc"));
    assert_eq!(s2.matches("cmcontinue").count(), 1);
}

#[test]
fn test_set_param_replaces_first_match() {
    let mut q = QueryDescriptor { params: Vec::new() };
    q.set_param("a".to_string(), "1".to_string());
    q.set_param("b".to_string(), "2".to_string());
    q.set_param("a".to_string(), "3".to_string());
    assert_eq!(q.to_query_string(), "a=3&b=2");
}
