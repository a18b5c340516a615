use community_hub::flows::DbResult;
use community_hub::queries::{
    get_by_weighted_score, get_communities_count, get_communities_of_user, get_community_posts, get_pagination, SqlArg,
    COMMUNITIES_COUNT_ALL, COMMUNITIES_COUNT_BY_NAME, COMMUNITIES_COUNT_EMPTY_NAME, COMMUNITY_POSTS_HEAD,
    COMMUNITY_POSTS_LIMIT, COMMUNITY_POSTS_ORDER, COMMUNITY_POSTS_SEARCH, CATEGORY_FILTER, NAME_SIMILARITY_FILTER,
    PAGINATION_HEAD, WEIGHTED_SCORE_HEAD, WEIGHTED_SCORE_ORDER,
};
use community_hub::responders::ApiResponse;
use community_hub::responses::TemplateView;
use community_hub::search::search_page_count;

#[test]
fn count_query_depends_on_the_name() {
    let all = get_communities_count(None);
    assert_eq!(all.sql, COMMUNITIES_COUNT_ALL);
    assert!(all.args.is_empty());
    let empty = get_communities_count(Some(""));
    assert_eq!(empty.sql, COMMUNITIES_COUNT_EMPTY_NAME);
    assert!(empty.args.is_empty());
    let named = get_communities_count(Some("rust"));
    assert_eq!(named.sql, COMMUNITIES_COUNT_BY_NAME);
    assert_eq!(named.args, vec![SqlArg::Text("rust")]);
}

#[test]
fn posts_query_numbers_its_placeholders() {
    let q = get_community_posts(&7, None, &40, &20);
    assert_eq!(
        q.sql,
        format!("{}$1{}$2{}$3", COMMUNITY_POSTS_HEAD, COMMUNITY_POSTS_ORDER, COMMUNITY_POSTS_LIMIT)
    );
    assert_eq!(q.args, vec![SqlArg::Int(7), SqlArg::Int(40), SqlArg::Int(20)]);
    let s = get_community_posts(&7, Some("cats"), &0, &20);
    assert_eq!(
        s.sql,
        format!("{}$1{}$2{}$3{}$4", COMMUNITY_POSTS_HEAD, COMMUNITY_POSTS_SEARCH, COMMUNITY_POSTS_ORDER, COMMUNITY_POSTS_LIMIT)
    );
    assert_eq!(s.args, vec![SqlArg::Int(7), SqlArg::Text("cats"), SqlArg::Int(0), SqlArg::Int(20)]);
}

#[test]
fn pagination_and_weighted_listing() {
    let cats = vec!["gaming".to_string(), "music".to_string()];
    let p = get_pagination(&20, Some(cats.as_slice()), Some("rust"));
    assert_eq!(
        p.sql,
        format!("{}$1{}$2{}$3) > 0.1", PAGINATION_HEAD, CATEGORY_FILTER, NAME_SIMILARITY_FILTER)
    );
    assert_eq!(p.args, vec![SqlArg::Int(20), SqlArg::Categories(&cats), SqlArg::Text("rust")]);
    let w = get_by_weighted_score(&3, &20, None, None);
    assert_eq!(w.sql, format!("{}{}$1 OFFSET $2", WEIGHTED_SCORE_HEAD, WEIGHTED_SCORE_ORDER));
    assert_eq!(w.args, vec![SqlArg::Int(20), SqlArg::Int(60)]);
}

#[test]
fn user_listing_binds_the_user_for_each_filter() {
    let plain = get_communities_of_user(&5, &0, &10, false, false, None, None);
    assert_eq!(plain.args, vec![SqlArg::Int(5), SqlArg::Int(5), SqlArg::Int(5), SqlArg::Int(10), SqlArg::Int(0)]);
    assert!(plain.sql.contains("$5"));
    assert!(!plain.sql.contains("$6"));
    let owned = get_communities_of_user(&5, &0, &10, true, false, Some("x"), None);
    assert_eq!(
        owned.args,
        vec![SqlArg::Int(5), SqlArg::Int(5), SqlArg::Int(5), SqlArg::Int(5), SqlArg::Text("x"), SqlArg::Int(10), SqlArg::Int(0)]
    );
    assert!(owned.sql.contains("WHERE c.owner_id"));
    let both = get_communities_of_user(&5, &0, &10, true, true, None, None);
    assert_eq!(both.args.len(), 5);
    assert!(!both.sql.contains("WHERE c.owner_id"));
}

#[test]
fn search_page_counts() {
    assert_eq!(search_page_count(true, DbResult::Value(Some(4))), Ok(4));
    assert_eq!(search_page_count(true, DbResult::Value(None)), Ok(0));
    let expected = ApiResponse::Render {
        status: 500,
        template: Some(TemplateView::Page {
            name: "partials/components/community/search-error",
            title: None,
            message: Some("We experienced an unexpected problem. Please hang tight.".to_string()),
        }),
        headers: None,
    };
    assert_eq!(search_page_count(false, DbResult::Value(Some(4))), Err(expected.clone()));
    assert_eq!(search_page_count(false, DbResult::Value(Some(-1))), Err(expected.clone()));
    assert_eq!(search_page_count(true, DbResult::Failed), Err(expected));
}
