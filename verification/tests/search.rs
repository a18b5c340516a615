use community_hub::api::ApiResponse;
use community_hub::search::{
    homepage_categories, plan_community_search, search_categories, split_commas, CommunityQuery,
};

fn strings(xs: &[&str]) -> Vec<String> {
    xs.iter().map(|x| x.to_string()).collect()
}

#[test]
fn commas_split_like_str_split() {
    assert_eq!(split_commas(""), strings(&[""]));
    assert_eq!(split_commas("a,,b,"), strings(&["a", "", "b", ""]));
    assert_eq!(split_commas("gaming"), strings(&["gaming"]));
}

#[test]
fn search_categories_are_distinct_and_few() {
    assert_eq!(search_categories("art,music,art,games,tech"), strings(&["art", "music", "games"]));
    assert_eq!(search_categories("a,a,a"), strings(&["a"]));
}

#[test]
fn homepage_categories_keep_repeats() {
    assert_eq!(homepage_categories(Some("a,b,a,c")), strings(&["a", "b", "a"]));
    assert_eq!(homepage_categories(None), Vec::<String>::new());
}

#[test]
fn negative_offsets_get_no_content() {
    assert_eq!(plan_community_search(Some(-1), None, None), Err(ApiResponse::NoContent));
}

#[test]
fn query_choice_follows_text_and_categories() {
    let plan = plan_community_search(None, None, None).unwrap();
    assert_eq!((plan.offset, plan.categories, plan.query), (0, None, CommunityQuery::All));
    let plan = plan_community_search(Some(2), None, Some("rust")).unwrap();
    assert_eq!(plan.query, CommunityQuery::ByName("rust".to_string()));
    assert_eq!(plan.offset, 2);
    let plan = plan_community_search(None, Some(""), Some("")).unwrap();
    assert_eq!((plan.categories, plan.query), (None, CommunityQuery::All));
    let plan = plan_community_search(None, Some("art,art"), None).unwrap();
    assert_eq!(plan.query, CommunityQuery::ByCategories(strings(&["art"])));
    let plan = plan_community_search(None, Some("art"), Some("")).unwrap();
    assert_eq!(plan.query, CommunityQuery::ByCategories(strings(&["art"])));
    let plan = plan_community_search(None, Some("art,tech"), Some("py")).unwrap();
    assert_eq!(plan.categories, Some(strings(&["art", "tech"])));
    assert_eq!(
        plan.query,
        CommunityQuery::ByCategoriesAndName(strings(&["art", "tech"]), "py".to_string())
    );
}
