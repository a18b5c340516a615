//! The SQL statements of the community listings, built the way the query
//! builder of the database driver builds them: text pieces, with a `$n`
//! placeholder for the n-th bound argument.

use vstd::prelude::*;
use vstd::string::*;
use crate::text::{nat_decimal, push_nat_decimal};

verus! {

pub const USER_COMMUNITIES_HEAD: &'static str =
    "\n            SELECT\n            c._id,\n            display_name,\n            categories AS \"categories: _\",\n            display_image,\n            cover_image,\n            description,\n            is_private,\n            total_members,\n            _joined_at,\n            role AS \"role: _\"\n            FROM communities c\n            LEFT JOIN (\n                SELECT _community_id,\n                COALESCE(COUNT(*), 0) AS total_members,\n                role AS \"role: _\"\n                FROM community_memberships\n                WHERE _user_id = \n            ";

pub const USER_COMMUNITIES_AFTER_MEMBER: &'static str =
    "\n            GROUP BY _community_id, role\n            ) cm ON cm._community_id = c._id\n            LEFT JOIN (\n                SELECT a._created_at AS _joined_at, a._id\n                    CASE\n                        WHEN a.owner_id =\n            ";

pub const USER_COMMUNITIES_AFTER_OWNER: &'static str =
    "\n             THEN a._created_at\n                        ELSE b._created_at\n                    ENS AS _joined_at\n                FROM communities a\n                JOIN community_memberships b ON a._id = b._community_id\n                WHERE b._user_id = \n            ";

pub const USER_COMMUNITIES_AFTER_JOINED: &'static str =
    "\n                GROUP BY _joined_at, _id\n            ) j ON j._id = c._id\n            ";

pub const USER_COMMUNITIES_JOINED_FILTER: &'static str =
    "\n                WHERE c._id = (\n                    SELECT _community_id\n                    FROM community_memberships\n                    WHERE _user_id = \n                ";

pub const USER_COMMUNITIES_OWNED_FILTER: &'static str =
    "\n                WHERE c.owner_id = \n                ";

pub const USER_COMMUNITIES_NAME_FILTER: &'static str =
    "\n                AND similarity(c.display_name,\n                ";

pub const CATEGORY_FILTER: &'static str =
    "\n                AND categories @> \n                ";

pub const USER_COMMUNITIES_ORDER: &'static str =
    "\n            ORDER BY _joined_at DESC\n            LIMIT \n            ";

pub const PAGINATION_HEAD: &'static str =
    "\n            SELECT CEIL(COUNT(*)::NUMERIC / ?) AS count\n            FROM communityies\n            WHERE (\n                (display_name IS NOT NULL AND display_image != '')\n                OR (cover_Image IS NOT NULL AND cover_image != '')\n            )\n            ";

pub const NAME_SIMILARITY_FILTER: &'static str =
    "\n                AND similarity(display_name,\n                ";

pub const WEIGHTED_SCORE_HEAD: &'static str =
    "\n            SELECT\n            c._id,\n            display_name,\n            display_image,\n            cover_image,\n            description,\n            is_private,\n            total_members\n            FROM communities c\n            LEFT JOIN (\n                SELECT\n                c._id,\n                COALESCE(total_members, 0) AS total_members,\n                SUM(total_members * 0.4) +\n                SUM(posts_count * 0.15) +\n                SUM(post_reactions_count * 0.2) +\n                SUM(comments_count * 0.25) AS weighted_score\n                FROM communities c\n\n                LEFT JOIN (\n                    SELECT _community_id, COALESCE(COUNT(*), 0) AS total_members\n                    FROM community_memberships\n                    \n                    GROUP BY _community_id\n                ) m ON c._id = m._community_id\n\n                LEFT JOIN (\n                    SELECT _community_id, COALESCE(COUNT(*), 0) AS posts_count\n                    FROM community_posts\n\n                    GROUP BY _community_id\n                ) cp ON c._id = cp._community_id\n\n                LEFT JOIN (\n                    SELECT cp._community_id, post_reactions_count\n                    FROM community_posts cp\n\n                    LEFT JOIN (\n                        SELECT pr._post_id, COALESCE(COUNT(*), 0) AS post_reactions_count\n                        FROM post_reactions pr\n\n                        GROUP BY pr._post_id\n                    ) pr ON cp._post_id = pr._post_id\n\n                    GROUP BY cp._community_id, post_reactions_count\n                ) pr ON c._id = pr._community_id\n\n                LEFT JOIN (\n                    SELECT cp._community_id, comments_count\n                    FROM community_posts cp\n\n                    LEFT JOIN (\n                        SELECT co._post_id, COALESCE(COUNT(*), 0) AS comments_count\n                        FROM comments co\n\n                        GROUP BY co._post_id\n                    ) co ON cp._post_id = co._post_id\n\n                    GROUP BY cp._community_id, comments_count\n                ) co ON c._id = co._community_id\n\n                GROUP BY c._id, total_members\n            ) cm ON c._id = cm._id\n            WHERE (\n                (display_image IS NOT NULL AND cover_image IS NOT NULL)\n                OR (display_image != '' AND cover_image != '')\n            )\n            ";

pub const WEIGHTED_SCORE_ORDER: &'static str =
    "\n            ORDER BY COALESCE(cm.weighted_score, 0) DESC, c._created_at DESC\n            LIMIT\n            ";

pub const COMMUNITY_POSTS_HEAD: &'static str =
    "\n            SELECT\n            _id,\n            _created_at,\n            is_pinned,\n            caption,\n            content,\n            links,\n            images,\n            videos,\n            owner_id,\n            FROM posts\n            WHERE _id = (\n                SELECT _post_id\n                FROM community_posts\n                WHERE _community_id = ?\n            )\n            ";

pub const COMMUNITY_POSTS_SEARCH: &'static str =
    "\n                AND (\n                    similarity(caption, ?) > 0.1\n                    OR similarity(\n                        (SELECT display_name FROM users WHERE _id = owner_id),\n                        ?\n                    ) > 0.1\n                )\n                ";

pub const COMMUNITY_POSTS_ORDER: &'static str =
    "\n            ORDER BY _created_at DESC\n            OFFSET ?\n            ";

pub const COMMUNITY_POSTS_LIMIT: &'static str =
    "\n            LIMIT ?\n            ";

pub const COMMUNITIES_COUNT_EMPTY_NAME: &'static str =
    "\n                            SELECT CEIL(COUNT(*)::NUMERIC / 20) AS count\n                            FROM communities;\n                        ";

pub const COMMUNITIES_COUNT_BY_NAME: &'static str =
    "\n                            SELECT CEIL(COUNT(*)::NUMERIC / 20) AS count\n                            FROM communities\n                            WHERE similarity(display_name, $1) > 0.1;\n                        ";

pub const COMMUNITIES_COUNT_ALL: &'static str =
    "\n                        SELECT CEIL(COUNT(*)::NUMERIC / 20) AS count\n                        FROM communities;\n                    ";

/// An argument bound to a statement.
#[derive(Clone, Copy, Debug, PartialEq, Eq)]
pub enum SqlArg<'a> {
    Int(i64),
    Text(&'a str),
    Categories(&'a [String]),
}

/// A statement and the arguments bound to its placeholders, in order.
#[derive(Clone, Debug, PartialEq, Eq)]
pub struct SqlQuery<'a> {
    pub sql: String,
    pub args: Vec<SqlArg<'a>>,
}

/// The number of placeholders among `pieces` (a piece is text, or `None`
/// for a placeholder).
pub open spec fn bind_count(pieces: Seq<Option<Seq<char>>>) -> nat
    decreases pieces.len(),
{
    if pieces.len() == 0 {
        0
    } else {
        bind_count(pieces.drop_last()) + if pieces.last() is None { 1nat } else { 0nat }
    }
}

/// The text of `pieces`: text pieces as they are, the n-th placeholder as
/// `$n`.
pub open spec fn render(pieces: Seq<Option<Seq<char>>>) -> Seq<char>
    decreases pieces.len(),
{
    if pieces.len() == 0 {
        Seq::empty()
    } else {
        render(pieces.drop_last()) + match pieces.last() {
            Some(text) => text,
            None => "$"@ + nat_decimal(bind_count(pieces)),
        }
    }
}

/// Whether `q` holds the text of `pieces` with one argument per placeholder.
pub open spec fn holds(q: SqlQuery, pieces: Seq<Option<Seq<char>>>) -> bool {
    &&& q.sql@ == render(pieces)
    &&& q.args@.len() == bind_count(pieces)
}

impl<'a> SqlQuery<'a> {
    /// A statement that starts with `text`.
    pub fn new(text: &str) -> (r: SqlQuery<'a>)
        ensures
            holds(r, seq![Some(text@)]),
            r.sql@ == text@,
            r.args@ == Seq::<SqlArg<'a>>::empty(),
    {
        let r = SqlQuery { sql: String::from_str(text), args: Vec::new() };
        let ghost p = seq![Some(text@)];
        assert(p.drop_last() =~= Seq::<Option<Seq<char>>>::empty());
        assert(bind_count(p.drop_last()) == 0);
        assert(render(p.drop_last()) == Seq::<char>::empty());
        assert(p.last() == Some(text@));
        assert(bind_count(p) == 0);
        assert(render(p) =~= text@);
        r
    }

    /// Appends `text`.
    pub fn push(&mut self, text: &str, Ghost(pieces): Ghost<Seq<Option<Seq<char>>>>)
        requires
            holds(*old(self), pieces),
        ensures
            holds(*final(self), pieces.push(Some(text@))),
            final(self).args == old(self).args,
    {
        self.sql.append(text);
        assert(pieces.push(Some(text@)).drop_last() =~= pieces);
    }

    /// Binds `arg` to a new placeholder `$n`, `n` being the new number of
    /// arguments.
    pub fn push_bind(&mut self, arg: SqlArg<'a>, Ghost(pieces): Ghost<Seq<Option<Seq<char>>>>)
        requires
            holds(*old(self), pieces),
        ensures
            holds(*final(self), pieces.push(None)),
            final(self).args@ == old(self).args@.push(arg),
    {
        let ghost old_sql = self.sql@;
        self.args.push(arg);
        self.sql.append("$");
        push_nat_decimal(&mut self.sql, self.args.len() as u128);
        let ghost p = pieces.push(None);
        assert(p.drop_last() =~= pieces);
        assert(bind_count(p) == bind_count(pieces) + 1);
        assert(render(p) == render(pieces) + ("$"@ + nat_decimal(bind_count(p))));
        assert(self.sql@ =~= old_sql + ("$"@ + nat_decimal(bind_count(p))));
    }
}

/// The pieces of the listing of a user's communities.
pub open spec fn user_communities_pieces(
    owned_only: bool,
    joined_only: bool,
    by_name: bool,
    by_categories: bool,
) -> Seq<Option<Seq<char>>> {
    seq![
        Some(USER_COMMUNITIES_HEAD@),
        None,
        Some(USER_COMMUNITIES_AFTER_MEMBER@),
        None,
        Some(USER_COMMUNITIES_AFTER_OWNER@),
        None,
        Some(USER_COMMUNITIES_AFTER_JOINED@),
    ] + (if joined_only {
        seq![Some(USER_COMMUNITIES_JOINED_FILTER@), None, Some(")"@)]
    } else if owned_only {
        seq![Some(USER_COMMUNITIES_OWNED_FILTER@), None]
    } else {
        Seq::empty()
    }) + (if by_name {
        seq![Some(USER_COMMUNITIES_NAME_FILTER@), None, Some(") > 0.1"@)]
    } else {
        Seq::empty()
    }) + (if by_categories {
        seq![Some(CATEGORY_FILTER@), None]
    } else {
        Seq::empty()
    }) + seq![Some(USER_COMMUNITIES_ORDER@), None, Some(" OFFSET "@), None]
}

/// The listing of the communities of `user_id`: only those the user joined
/// when `get_joined_by_user` alone is set, only those the user owns when
/// `get_owned_by_user` alone is set; narrowed by name similarity and by
/// categories when given; newest membership first, `limit` rows from
/// `offset`.
pub fn get_communities_of_user<'a>(
    user_id: &i64,
    offset: &i64,
    limit: &i64,
    get_owned_by_user: bool,
    get_joined_by_user: bool,
    display_name: Option<&'a str>,
    categories: Option<&'a [String]>,
) -> (r: SqlQuery<'a>)
    ensures
        holds(
            r,
            user_communities_pieces(
                get_owned_by_user && !get_joined_by_user,
                get_joined_by_user && !get_owned_by_user,
                display_name is Some,
                categories is Some,
            ),
        ),
        r.args@ == seq![SqlArg::Int(*user_id), SqlArg::Int(*user_id), SqlArg::Int(*user_id)] + (if (
        get_joined_by_user && !get_owned_by_user) || (get_owned_by_user && !get_joined_by_user) {
            seq![SqlArg::Int(*user_id)]
        } else {
            Seq::empty()
        }) + (match display_name {
            Some(n) => seq![SqlArg::Text(n)],
            None => Seq::empty(),
        }) + (match categories {
            Some(c) => seq![SqlArg::Categories(c)],
            None => Seq::empty(),
        }) + seq![SqlArg::Int(*limit), SqlArg::Int(*offset)],
{
    let ghost mut pieces: Seq<Option<Seq<char>>> = seq![Some(USER_COMMUNITIES_HEAD@)];
    let ghost mut args: Seq<SqlArg<'a>> = Seq::empty();
    let mut query = SqlQuery::new(USER_COMMUNITIES_HEAD);
    query.push_bind(SqlArg::Int(*user_id), Ghost(pieces));
    proof { pieces = pieces.push(None); }
    query.push(USER_COMMUNITIES_AFTER_MEMBER, Ghost(pieces));
    proof { pieces = pieces.push(Some(USER_COMMUNITIES_AFTER_MEMBER@)); }
    query.push_bind(SqlArg::Int(*user_id), Ghost(pieces));
    proof { pieces = pieces.push(None); }
    query.push(USER_COMMUNITIES_AFTER_OWNER, Ghost(pieces));
    proof { pieces = pieces.push(Some(USER_COMMUNITIES_AFTER_OWNER@)); }
    query.push_bind(SqlArg::Int(*user_id), Ghost(pieces));
    proof { pieces = pieces.push(None); }
    query.push(USER_COMMUNITIES_AFTER_JOINED, Ghost(pieces));
    proof { pieces = pieces.push(Some(USER_COMMUNITIES_AFTER_JOINED@)); }
    let ghost base = pieces;
    if get_joined_by_user && !get_owned_by_user {
        query.push(USER_COMMUNITIES_JOINED_FILTER, Ghost(pieces));
        proof { pieces = pieces.push(Some(USER_COMMUNITIES_JOINED_FILTER@)); }
        query.push_bind(SqlArg::Int(*user_id), Ghost(pieces));
        proof { pieces = pieces.push(None); }
        query.push(")", Ghost(pieces));
        proof { pieces = pieces.push(Some(")"@)); }
    } else if !get_joined_by_user && get_owned_by_user {
        query.push(USER_COMMUNITIES_OWNED_FILTER, Ghost(pieces));
        proof { pieces = pieces.push(Some(USER_COMMUNITIES_OWNED_FILTER@)); }
        query.push_bind(SqlArg::Int(*user_id), Ghost(pieces));
        proof { pieces = pieces.push(None); }
    }
    let ghost with_filter = pieces;
    if let Some(display_name) = display_name {
        query.push(USER_COMMUNITIES_NAME_FILTER, Ghost(pieces));
        proof { pieces = pieces.push(Some(USER_COMMUNITIES_NAME_FILTER@)); }
        query.push_bind(SqlArg::Text(display_name), Ghost(pieces));
        proof { pieces = pieces.push(None); }
        query.push(") > 0.1", Ghost(pieces));
        proof { pieces = pieces.push(Some(") > 0.1"@)); }
    }
    let ghost with_name = pieces;
    if let Some(categories) = categories {
        query.push(CATEGORY_FILTER, Ghost(pieces));
        proof { pieces = pieces.push(Some(CATEGORY_FILTER@)); }
        query.push_bind(SqlArg::Categories(categories), Ghost(pieces));
        proof { pieces = pieces.push(None); }
    }
    let ghost with_categories = pieces;
    query.push(USER_COMMUNITIES_ORDER, Ghost(pieces));
    proof { pieces = pieces.push(Some(USER_COMMUNITIES_ORDER@)); }
    query.push_bind(SqlArg::Int(*limit), Ghost(pieces));
    proof { pieces = pieces.push(None); }
    query.push(" OFFSET ", Ghost(pieces));
    proof { pieces = pieces.push(Some(" OFFSET "@)); }
    query.push_bind(SqlArg::Int(*offset), Ghost(pieces));
    proof { pieces = pieces.push(None); }
    assert(pieces =~= user_communities_pieces(
        get_owned_by_user && !get_joined_by_user,
        get_joined_by_user && !get_owned_by_user,
        display_name is Some,
        categories is Some,
    ));
    assert(query.args@ =~= seq![SqlArg::Int(*user_id), SqlArg::Int(*user_id), SqlArg::Int(*user_id)] + (if (
    get_joined_by_user && !get_owned_by_user) || (get_owned_by_user && !get_joined_by_user) {
        seq![SqlArg::Int(*user_id)]
    } else {
        Seq::empty()
    }) + (match display_name {
        Some(n) => seq![SqlArg::Text(n)],
        None => Seq::empty(),
    }) + (match categories {
        Some(c) => seq![SqlArg::Categories(c)],
        None => Seq::empty(),
    }) + seq![SqlArg::Int(*limit), SqlArg::Int(*offset)]);
    query
}

/// The pieces of the page count of the community listing.
pub open spec fn pagination_pieces(by_categories: bool, by_name: bool) -> Seq<Option<Seq<char>>> {
    seq![Some(PAGINATION_HEAD@), None] + (if by_categories {
        seq![Some(CATEGORY_FILTER@), None]
    } else {
        Seq::empty()
    }) + (if by_name {
        seq![Some(NAME_SIMILARITY_FILTER@), None, Some(") > 0.1"@)]
    } else {
        Seq::empty()
    })
}

/// The number of pages of the community listing with `limit` rows per page,
/// narrowed by categories and by name similarity when given.
pub fn get_pagination<'a>(
    limit: &i64,
    categories: Option<&'a [String]>,
    display_name: Option<&'a str>,
) -> (r: SqlQuery<'a>)
    ensures
        holds(r, pagination_pieces(categories is Some, display_name is Some)),
        r.args@ == seq![SqlArg::Int(*limit)] + (match categories {
            Some(c) => seq![SqlArg::Categories(c)],
            None => Seq::empty(),
        }) + (match display_name {
            Some(n) => seq![SqlArg::Text(n)],
            None => Seq::empty(),
        }),
{
    let ghost mut pieces: Seq<Option<Seq<char>>> = seq![Some(PAGINATION_HEAD@)];
    let mut query = SqlQuery::new(PAGINATION_HEAD);
    query.push_bind(SqlArg::Int(*limit), Ghost(pieces));
    proof { pieces = pieces.push(None); }
    if let Some(categories) = categories {
        query.push(CATEGORY_FILTER, Ghost(pieces));
        proof { pieces = pieces.push(Some(CATEGORY_FILTER@)); }
        query.push_bind(SqlArg::Categories(categories), Ghost(pieces));
        proof { pieces = pieces.push(None); }
    }
    if let Some(display_name) = display_name {
        query.push(NAME_SIMILARITY_FILTER, Ghost(pieces));
        proof { pieces = pieces.push(Some(NAME_SIMILARITY_FILTER@)); }
        query.push_bind(SqlArg::Text(display_name), Ghost(pieces));
        proof { pieces = pieces.push(None); }
        query.push(") > 0.1", Ghost(pieces));
        proof { pieces = pieces.push(Some(") > 0.1"@)); }
    }
    assert(pieces =~= pagination_pieces(categories is Some, display_name is Some));
    assert(query.args@ =~= seq![SqlArg::Int(*limit)] + (match categories {
        Some(c) => seq![SqlArg::Categories(c)],
        None => Seq::empty(),
    }) + (match display_name {
        Some(n) => seq![SqlArg::Text(n)],
        None => Seq::empty(),
    }));
    query
}

/// The pieces of the community listing by weighted score.
pub open spec fn weighted_score_pieces(by_categories: bool, by_name: bool) -> Seq<Option<Seq<char>>> {
    seq![Some(WEIGHTED_SCORE_HEAD@)] + (if by_categories {
        seq![Some(CATEGORY_FILTER@), None]
    } else {
        Seq::empty()
    }) + (if by_name {
        seq![Some(NAME_SIMILARITY_FILTER@), None, Some(") > 0.1"@)]
    } else {
        Seq::empty()
    }) + seq![Some(WEIGHTED_SCORE_ORDER@), None, Some(" OFFSET "@), None]
}

/// The community listing by weighted score (members, posts, reactions and
/// comments), narrowed by categories and by name similarity when given:
/// `limit` rows of page `offset`, that is from row `offset * limit`.
pub fn get_by_weighted_score<'a>(
    offset: &i64,
    limit: &i64,
    categories: Option<&'a [String]>,
    display_name: Option<&'a str>,
) -> (r: SqlQuery<'a>)
    requires
        i64::MIN <= *offset * *limit <= i64::MAX,
    ensures
        holds(r, weighted_score_pieces(categories is Some, display_name is Some)),
        r.args@ == (match categories {
            Some(c) => seq![SqlArg::Categories(c)],
            None => Seq::empty(),
        }) + (match display_name {
            Some(n) => seq![SqlArg::Text(n)],
            None => Seq::empty(),
        }) + seq![SqlArg::Int(*limit), SqlArg::Int((*offset * *limit) as i64)],
{
    let ghost mut pieces: Seq<Option<Seq<char>>> = seq![Some(WEIGHTED_SCORE_HEAD@)];
    let mut query = SqlQuery::new(WEIGHTED_SCORE_HEAD);
    if let Some(categories) = categories {
        query.push(CATEGORY_FILTER, Ghost(pieces));
        proof { pieces = pieces.push(Some(CATEGORY_FILTER@)); }
        query.push_bind(SqlArg::Categories(categories), Ghost(pieces));
        proof { pieces = pieces.push(None); }
    }
    if let Some(display_name) = display_name {
        query.push(NAME_SIMILARITY_FILTER, Ghost(pieces));
        proof { pieces = pieces.push(Some(NAME_SIMILARITY_FILTER@)); }
        query.push_bind(SqlArg::Text(display_name), Ghost(pieces));
        proof { pieces = pieces.push(None); }
        query.push(") > 0.1", Ghost(pieces));
        proof { pieces = pieces.push(Some(") > 0.1"@)); }
    }
    query.push(WEIGHTED_SCORE_ORDER, Ghost(pieces));
    proof { pieces = pieces.push(Some(WEIGHTED_SCORE_ORDER@)); }
    query.push_bind(SqlArg::Int(*limit), Ghost(pieces));
    proof { pieces = pieces.push(None); }
    query.push(" OFFSET ", Ghost(pieces));
    proof { pieces = pieces.push(Some(" OFFSET "@)); }
    query.push_bind(SqlArg::Int(*offset * *limit), Ghost(pieces));
    proof { pieces = pieces.push(None); }
    assert(pieces =~= weighted_score_pieces(categories is Some, display_name is Some));
    assert(query.args@ =~= (match categories {
        Some(c) => seq![SqlArg::Categories(c)],
        None => Seq::empty(),
    }) + (match display_name {
        Some(n) => seq![SqlArg::Text(n)],
        None => Seq::empty(),
    }) + seq![SqlArg::Int(*limit), SqlArg::Int((*offset * *limit) as i64)]);
    query
}

/// The pieces of the listing of a community's posts.
pub open spec fn community_posts_pieces(by_search: bool) -> Seq<Option<Seq<char>>> {
    seq![Some(COMMUNITY_POSTS_HEAD@), None] + (if by_search {
        seq![Some(COMMUNITY_POSTS_SEARCH@), None]
    } else {
        Seq::empty()
    }) + seq![Some(COMMUNITY_POSTS_ORDER@), None, Some(COMMUNITY_POSTS_LIMIT@), None]
}

/// The posts of `community_id`, narrowed by caption or author similarity
/// to `search` when given; newest first, `limit` rows from `offset`.
pub fn get_community_posts<'a>(
    community_id: &i64,
    search: Option<&'a str>,
    offset: &i64,
    limit: &i64,
) -> (r: SqlQuery<'a>)
    ensures
        holds(r, community_posts_pieces(search is Some)),
        r.args@ == seq![SqlArg::Int(*community_id)] + (match search {
            Some(s) => seq![SqlArg::Text(s)],
            None => Seq::empty(),
        }) + seq![SqlArg::Int(*offset), SqlArg::Int(*limit)],
{
    let ghost mut pieces: Seq<Option<Seq<char>>> = seq![Some(COMMUNITY_POSTS_HEAD@)];
    let mut query = SqlQuery::new(COMMUNITY_POSTS_HEAD);
    query.push_bind(SqlArg::Int(*community_id), Ghost(pieces));
    proof { pieces = pieces.push(None); }
    if let Some(search) = search {
        query.push(COMMUNITY_POSTS_SEARCH, Ghost(pieces));
        proof { pieces = pieces.push(Some(COMMUNITY_POSTS_SEARCH@)); }
        query.push_bind(SqlArg::Text(search), Ghost(pieces));
        proof { pieces = pieces.push(None); }
    }
    query.push(COMMUNITY_POSTS_ORDER, Ghost(pieces));
    proof { pieces = pieces.push(Some(COMMUNITY_POSTS_ORDER@)); }
    query.push_bind(SqlArg::Int(*offset), Ghost(pieces));
    proof { pieces = pieces.push(None); }
    query.push(COMMUNITY_POSTS_LIMIT, Ghost(pieces));
    proof { pieces = pieces.push(Some(COMMUNITY_POSTS_LIMIT@)); }
    query.push_bind(SqlArg::Int(*limit), Ghost(pieces));
    proof { pieces = pieces.push(None); }
    assert(pieces =~= community_posts_pieces(search is Some));
    assert(query.args@ =~= seq![SqlArg::Int(*community_id)] + (match search {
        Some(s) => seq![SqlArg::Text(s)],
        None => Seq::empty(),
    }) + seq![SqlArg::Int(*offset), SqlArg::Int(*limit)]);
    query
}

/// The number of pages (of 20) of communities: all of them without a name
/// or with an empty one, else those whose name is similar to it (the name
/// bound to `$1`).
pub fn get_communities_count<'a>(display_name: Option<&'a str>) -> (r: SqlQuery<'a>)
    ensures
        match display_name {
            None => r.sql@ == COMMUNITIES_COUNT_ALL@ && r.args@.len() == 0,
            Some(name) => if name@.len() == 0 {
                r.sql@ == COMMUNITIES_COUNT_EMPTY_NAME@ && r.args@.len() == 0
            } else {
                r.sql@ == COMMUNITIES_COUNT_BY_NAME@ && r.args@ == seq![SqlArg::Text(name)]
            },
        },
{
    match display_name {
        Some(name) => {
            if name.is_empty() {
                SqlQuery::new(COMMUNITIES_COUNT_EMPTY_NAME)
            } else {
                let mut query = SqlQuery::new(COMMUNITIES_COUNT_BY_NAME);
                query.args.push(SqlArg::Text(name));
                assert(query.args@ =~= seq![SqlArg::Text(name)]);
                query
            }
        },
        None => SqlQuery::new(COMMUNITIES_COUNT_ALL),
    }
}


proof fn lemma_render_text(p: Seq<Option<Seq<char>>>, t: Seq<char>)
    ensures
        render(p.push(Some(t))) == render(p) + t,
        bind_count(p.push(Some(t))) == bind_count(p),
{
    assert(p.push(Some(t)).drop_last() =~= p);
}

proof fn lemma_render_bind(p: Seq<Option<Seq<char>>>)
    ensures
        bind_count(p.push(None)) == bind_count(p) + 1,
        render(p.push(None)) == render(p) + ("$"@ + nat_decimal(bind_count(p) + 1)),
{
    assert(p.push(None).drop_last() =~= p);
}

proof fn lemma_render_start(t: Seq<char>)
    ensures
        render(seq![Some(t)]) == t,
        bind_count(seq![Some(t)]) == 0,
{
    lemma_render_text(Seq::empty(), t);
    assert(Seq::<Option<Seq<char>>>::empty().push(Some(t)) =~= seq![Some(t)]);
    assert(Seq::<char>::empty() + t =~= t);
}

/// The weighted-score listing's statement: the listing, then, when
/// categories are given, `AND categories @> $1`; when a name is given,
/// `AND similarity(display_name, $k) > 0.1`, so that only communities whose
/// name is similar to it are kept; then the order, `LIMIT` and `OFFSET`
/// placeholders.
#[verifier::spinoff_prover]
pub proof fn lemma_weighted_score_sql(by_categories: bool, by_name: bool)
    ensures
        render(weighted_score_pieces(by_categories, by_name)) == WEIGHTED_SCORE_HEAD@ + (
        if by_categories {
            CATEGORY_FILTER@ + "$"@ + nat_decimal(1)
        } else {
            Seq::empty()
        }) + (if by_name {
            NAME_SIMILARITY_FILTER@ + "$"@ + nat_decimal(if by_categories { 2nat } else { 1nat })
                + ") > 0.1"@
        } else {
            Seq::empty()
        }) + WEIGHTED_SCORE_ORDER@ + "$"@ + nat_decimal(
            1 + (if by_categories { 1nat } else { 0nat }) + (if by_name { 1nat } else { 0nat }),
        ) + " OFFSET "@ + "$"@ + nat_decimal(
            2 + (if by_categories { 1nat } else { 0nat }) + (if by_name { 1nat } else { 0nat }),
        ),
{
    let p0 = seq![Some(WEIGHTED_SCORE_HEAD@)];
    lemma_render_start(WEIGHTED_SCORE_HEAD@);
    let p1 = if by_categories {
        lemma_render_text(p0, CATEGORY_FILTER@);
        lemma_render_bind(p0.push(Some(CATEGORY_FILTER@)));
        p0.push(Some(CATEGORY_FILTER@)).push(None)
    } else {
        p0
    };
    let p2 = if by_name {
        lemma_render_text(p1, NAME_SIMILARITY_FILTER@);
        lemma_render_bind(p1.push(Some(NAME_SIMILARITY_FILTER@)));
        lemma_render_text(p1.push(Some(NAME_SIMILARITY_FILTER@)).push(None), ") > 0.1"@);
        p1.push(Some(NAME_SIMILARITY_FILTER@)).push(None).push(Some(") > 0.1"@))
    } else {
        p1
    };
    lemma_render_text(p2, WEIGHTED_SCORE_ORDER@);
    let p3 = p2.push(Some(WEIGHTED_SCORE_ORDER@));
    lemma_render_bind(p3);
    lemma_render_text(p3.push(None), " OFFSET "@);
    lemma_render_bind(p3.push(None).push(Some(" OFFSET "@)));
    let p4 = p3.push(None).push(Some(" OFFSET "@)).push(None);
    assert(p4 =~= weighted_score_pieces(by_categories, by_name));
    assert(render(p4) =~= WEIGHTED_SCORE_HEAD@ + (if by_categories {
        CATEGORY_FILTER@ + "$"@ + nat_decimal(1)
    } else {
        Seq::empty()
    }) + (if by_name {
        NAME_SIMILARITY_FILTER@ + "$"@ + nat_decimal(if by_categories { 2nat } else { 1nat })
            + ") > 0.1"@
    } else {
        Seq::empty()
    }) + WEIGHTED_SCORE_ORDER@ + "$"@ + nat_decimal(
        1 + (if by_categories { 1nat } else { 0nat }) + (if by_name { 1nat } else { 0nat }),
    ) + " OFFSET "@ + "$"@ + nat_decimal(
        2 + (if by_categories { 1nat } else { 0nat }) + (if by_name { 1nat } else { 0nat }),
    ));
}

/// The page count's statement: the count over `$1` rows per page, then,
/// when categories are given, `AND categories @> $2`; when a name is given,
/// `AND similarity(display_name, $k) > 0.1`, the same name filter as the
/// weighted-score listing.
#[verifier::spinoff_prover]
pub proof fn lemma_pagination_sql(by_categories: bool, by_name: bool)
    ensures
        render(pagination_pieces(by_categories, by_name)) == PAGINATION_HEAD@ + "$"@ + nat_decimal(1)
            + (if by_categories {
            CATEGORY_FILTER@ + "$"@ + nat_decimal(2)
        } else {
            Seq::empty()
        }) + (if by_name {
            NAME_SIMILARITY_FILTER@ + "$"@ + nat_decimal(if by_categories { 3nat } else { 2nat })
                + ") > 0.1"@
        } else {
            Seq::empty()
        }),
{
    let p0 = seq![Some(PAGINATION_HEAD@)];
    lemma_render_start(PAGINATION_HEAD@);
    lemma_render_bind(p0);
    let pa = p0.push(None);
    let p1 = if by_categories {
        lemma_render_text(pa, CATEGORY_FILTER@);
        lemma_render_bind(pa.push(Some(CATEGORY_FILTER@)));
        pa.push(Some(CATEGORY_FILTER@)).push(None)
    } else {
        pa
    };
    let p2 = if by_name {
        lemma_render_text(p1, NAME_SIMILARITY_FILTER@);
        lemma_render_bind(p1.push(Some(NAME_SIMILARITY_FILTER@)));
        lemma_render_text(p1.push(Some(NAME_SIMILARITY_FILTER@)).push(None), ") > 0.1"@);
        p1.push(Some(NAME_SIMILARITY_FILTER@)).push(None).push(Some(") > 0.1"@))
    } else {
        p1
    };
    assert(p2 =~= pagination_pieces(by_categories, by_name));
    assert(render(p2) =~= PAGINATION_HEAD@ + "$"@ + nat_decimal(1) + (if by_categories {
        CATEGORY_FILTER@ + "$"@ + nat_decimal(2)
    } else {
        Seq::empty()
    }) + (if by_name {
        NAME_SIMILARITY_FILTER@ + "$"@ + nat_decimal(if by_categories { 3nat } else { 2nat })
            + ") > 0.1"@
    } else {
        Seq::empty()
    }));
}

proof fn lemma_append_text_bind(p: Seq<Option<Seq<char>>>, t: Seq<char>)
    ensures
        render(p + seq![Some(t), None]) == render(p) + t + "$"@ + nat_decimal(bind_count(p) + 1),
        bind_count(p + seq![Some(t), None]) == bind_count(p) + 1,
{
    assert(p + seq![Some(t), None] =~= p.push(Some(t)).push(None));
    lemma_render_text(p, t);
    lemma_render_bind(p.push(Some(t)));
    assert(render(p) + t + ("$"@ + nat_decimal(bind_count(p) + 1)) =~= render(p) + t + "$"@ + nat_decimal(
        bind_count(p) + 1,
    ));
}

proof fn lemma_append_text_bind_text(p: Seq<Option<Seq<char>>>, t: Seq<char>, u: Seq<char>)
    ensures
        render(p + seq![Some(t), None, Some(u)]) == render(p) + t + "$"@ + nat_decimal(
            bind_count(p) + 1,
        ) + u,
        bind_count(p + seq![Some(t), None, Some(u)]) == bind_count(p) + 1,
{
    assert(p + seq![Some(t), None, Some(u)] =~= (p + seq![Some(t), None]).push(Some(u)));
    lemma_append_text_bind(p, t);
    lemma_render_text(p + seq![Some(t), None], u);
}

proof fn lemma_append_order(p: Seq<Option<Seq<char>>>, t: Seq<char>, u: Seq<char>)
    ensures
        render(p + seq![Some(t), None, Some(u), None]) == render(p) + t + "$"@ + nat_decimal(
            bind_count(p) + 1,
        ) + u + "$"@ + nat_decimal(bind_count(p) + 2),
        bind_count(p + seq![Some(t), None, Some(u), None]) == bind_count(p) + 2,
{
    assert(p + seq![Some(t), None, Some(u), None] =~= (p + seq![Some(t), None, Some(u)]).push(None));
    lemma_append_text_bind_text(p, t, u);
    lemma_render_bind(p + seq![Some(t), None, Some(u)]);
    let r = render(p) + t + "$"@ + nat_decimal(bind_count(p) + 1) + u;
    assert(r + ("$"@ + nat_decimal(bind_count(p) + 2)) =~= r + "$"@ + nat_decimal(bind_count(p) + 2));
}

spec fn user_communities_base() -> Seq<Option<Seq<char>>> {
    seq![
        Some(USER_COMMUNITIES_HEAD@),
        None,
        Some(USER_COMMUNITIES_AFTER_MEMBER@),
        None,
        Some(USER_COMMUNITIES_AFTER_OWNER@),
        None,
        Some(USER_COMMUNITIES_AFTER_JOINED@),
    ]
}

proof fn lemma_user_communities_base()
    ensures
        render(user_communities_base()) == USER_COMMUNITIES_HEAD@ + "$"@ + nat_decimal(1)
            + USER_COMMUNITIES_AFTER_MEMBER@ + "$"@ + nat_decimal(2) + USER_COMMUNITIES_AFTER_OWNER@
            + "$"@ + nat_decimal(3) + USER_COMMUNITIES_AFTER_JOINED@,
        bind_count(user_communities_base()) == 3,
{
    let p0 = seq![Some(USER_COMMUNITIES_HEAD@)];
    lemma_render_start(USER_COMMUNITIES_HEAD@);
    lemma_render_bind(p0);
    let q1 = p0.push(None);
    lemma_render_text(q1, USER_COMMUNITIES_AFTER_MEMBER@);
    let q2 = q1.push(Some(USER_COMMUNITIES_AFTER_MEMBER@));
    lemma_render_bind(q2);
    let q3 = q2.push(None);
    lemma_render_text(q3, USER_COMMUNITIES_AFTER_OWNER@);
    let q4 = q3.push(Some(USER_COMMUNITIES_AFTER_OWNER@));
    lemma_render_bind(q4);
    let q5 = q4.push(None);
    lemma_render_text(q5, USER_COMMUNITIES_AFTER_JOINED@);
    let base = q5.push(Some(USER_COMMUNITIES_AFTER_JOINED@));
    assert(base =~= user_communities_base());
    assert(render(base) =~= USER_COMMUNITIES_HEAD@ + "$"@ + nat_decimal(1)
        + USER_COMMUNITIES_AFTER_MEMBER@ + "$"@ + nat_decimal(2) + USER_COMMUNITIES_AFTER_OWNER@
        + "$"@ + nat_decimal(3) + USER_COMMUNITIES_AFTER_JOINED@);
}

/// The listing of a user's communities: the user is bound to `$1`, `$2` and
/// `$3` of the membership, ownership and joining-date subqueries; then the
/// joined-only listing keeps the communities the user is a member of
/// (`WHERE c._id = (SELECT _community_id FROM community_memberships WHERE
/// _user_id = $4)`), the owned-only listing those the user owns (`WHERE
/// c.owner_id = $4`), and the full listing has no such filter; then the
/// name filter `AND similarity(c.display_name, $k) > 0.1` and the category
/// filter when given; newest membership first, with `LIMIT` and `OFFSET`
/// placeholders.
#[verifier::spinoff_prover]
#[verifier::rlimit(60)]
pub proof fn lemma_user_communities_sql(owned_only: bool, joined_only: bool, by_name: bool, by_categories: bool)
    ensures
        ({
            let f: nat = if joined_only || owned_only { 1 } else { 0 };
            let n: nat = if by_name { 1 } else { 0 };
            let c: nat = if by_categories { 1 } else { 0 };
            render(user_communities_pieces(owned_only, joined_only, by_name, by_categories))
                == USER_COMMUNITIES_HEAD@ + "$"@ + nat_decimal(1) + USER_COMMUNITIES_AFTER_MEMBER@
                + "$"@ + nat_decimal(2) + USER_COMMUNITIES_AFTER_OWNER@ + "$"@ + nat_decimal(3)
                + USER_COMMUNITIES_AFTER_JOINED@ + (if joined_only {
                USER_COMMUNITIES_JOINED_FILTER@ + "$"@ + nat_decimal(4) + ")"@
            } else if owned_only {
                USER_COMMUNITIES_OWNED_FILTER@ + "$"@ + nat_decimal(4)
            } else {
                Seq::empty()
            }) + (if by_name {
                USER_COMMUNITIES_NAME_FILTER@ + "$"@ + nat_decimal(4 + f) + ") > 0.1"@
            } else {
                Seq::empty()
            }) + (if by_categories {
                CATEGORY_FILTER@ + "$"@ + nat_decimal(4 + f + n)
            } else {
                Seq::empty()
            }) + USER_COMMUNITIES_ORDER@ + "$"@ + nat_decimal(4 + f + n + c) + " OFFSET "@ + "$"@
                + nat_decimal(5 + f + n + c)
        }),
{
    let f: nat = if joined_only || owned_only { 1 } else { 0 };
    let n: nat = if by_name { 1 } else { 0 };
    let c: nat = if by_categories { 1 } else { 0 };
    let base = user_communities_base();
    lemma_user_communities_base();
    let fs: Seq<Option<Seq<char>>> = if joined_only {
        seq![Some(USER_COMMUNITIES_JOINED_FILTER@), None, Some(")"@)]
    } else if owned_only {
        seq![Some(USER_COMMUNITIES_OWNED_FILTER@), None]
    } else {
        Seq::empty()
    };
    if joined_only {
        lemma_append_text_bind_text(base, USER_COMMUNITIES_JOINED_FILTER@, ")"@);
    } else if owned_only {
        lemma_append_text_bind(base, USER_COMMUNITIES_OWNED_FILTER@);
    } else {
        assert(base + fs =~= base);
    }
    let p1 = base + fs;
    let t_base = USER_COMMUNITIES_HEAD@ + "$"@ + nat_decimal(1) + USER_COMMUNITIES_AFTER_MEMBER@ + "$"@
        + nat_decimal(2) + USER_COMMUNITIES_AFTER_OWNER@ + "$"@ + nat_decimal(3)
        + USER_COMMUNITIES_AFTER_JOINED@;
    let tf = if joined_only {
        USER_COMMUNITIES_JOINED_FILTER@ + "$"@ + nat_decimal(4) + ")"@
    } else if owned_only {
        USER_COMMUNITIES_OWNED_FILTER@ + "$"@ + nat_decimal(4)
    } else {
        Seq::<char>::empty()
    };
    assert(render(p1) =~= t_base + tf);
    assert(bind_count(p1) == 3 + f);
    let ns: Seq<Option<Seq<char>>> = if by_name {
        seq![Some(USER_COMMUNITIES_NAME_FILTER@), None, Some(") > 0.1"@)]
    } else {
        Seq::empty()
    };
    if by_name {
        lemma_append_text_bind_text(p1, USER_COMMUNITIES_NAME_FILTER@, ") > 0.1"@);
    } else {
        assert(p1 + ns =~= p1);
    }
    let p2 = p1 + ns;
    let tn = if by_name {
        USER_COMMUNITIES_NAME_FILTER@ + "$"@ + nat_decimal(4 + f) + ") > 0.1"@
    } else {
        Seq::<char>::empty()
    };
    assert(render(p2) =~= t_base + tf + tn);
    assert(bind_count(p2) == 3 + f + n);
    let cs: Seq<Option<Seq<char>>> = if by_categories {
        seq![Some(CATEGORY_FILTER@), None]
    } else {
        Seq::empty()
    };
    if by_categories {
        lemma_append_text_bind(p2, CATEGORY_FILTER@);
    } else {
        assert(p2 + cs =~= p2);
    }
    let p3 = p2 + cs;
    let tc = if by_categories {
        CATEGORY_FILTER@ + "$"@ + nat_decimal(4 + f + n)
    } else {
        Seq::<char>::empty()
    };
    assert(render(p3) =~= t_base + tf + tn + tc);
    assert(bind_count(p3) == 3 + f + n + c);
    lemma_append_order(p3, USER_COMMUNITIES_ORDER@, " OFFSET "@);
    assert(user_communities_pieces(owned_only, joined_only, by_name, by_categories) == p3 + seq![
        Some(USER_COMMUNITIES_ORDER@),
        None,
        Some(" OFFSET "@),
        None,
    ]);
    assert(render(user_communities_pieces(owned_only, joined_only, by_name, by_categories))
        =~= t_base + tf + tn + tc + USER_COMMUNITIES_ORDER@ + "$"@ + nat_decimal(4 + f + n + c)
        + " OFFSET "@ + "$"@ + nat_decimal(5 + f + n + c));
}

/// The joined-only and the owned-only listings of a user's communities are
/// different statements: one filters by membership, the other by
/// ownership.
#[verifier::spinoff_prover]
pub proof fn lemma_joined_and_owned_listings_differ(by_name: bool, by_categories: bool)
    ensures
        render(user_communities_pieces(false, true, by_name, by_categories)) != render(
            user_communities_pieces(true, false, by_name, by_categories),
        ),
{
    let t_base = USER_COMMUNITIES_HEAD@ + "$"@ + nat_decimal(1) + USER_COMMUNITIES_AFTER_MEMBER@ + "$"@
        + nat_decimal(2) + USER_COMMUNITIES_AFTER_OWNER@ + "$"@ + nat_decimal(3)
        + USER_COMMUNITIES_AFTER_JOINED@;
    let n: nat = if by_name { 1 } else { 0 };
    let c: nat = if by_categories { 1 } else { 0 };
    let tn = if by_name {
        USER_COMMUNITIES_NAME_FILTER@ + "$"@ + nat_decimal(5) + ") > 0.1"@
    } else {
        Seq::<char>::empty()
    };
    let tc = if by_categories {
        CATEGORY_FILTER@ + "$"@ + nat_decimal(5 + n)
    } else {
        Seq::<char>::empty()
    };
    let joined = USER_COMMUNITIES_JOINED_FILTER@ + "$"@ + nat_decimal(4) + ")"@;
    let owned = USER_COMMUNITIES_OWNED_FILTER@ + "$"@ + nat_decimal(4);
    let a = render(user_communities_pieces(false, true, by_name, by_categories));
    let b = render(user_communities_pieces(true, false, by_name, by_categories));
    let tail_len = tn.len() + tc.len() + USER_COMMUNITIES_ORDER@.len() + ("$"@ + nat_decimal(5 + n + c)).len()
        + " OFFSET "@.len() + ("$"@ + nat_decimal(6 + n + c)).len();
    assert(a.len() == t_base.len() + joined.len() + tail_len) by {
        lemma_user_communities_sql(false, true, by_name, by_categories);
    }
    assert(b.len() == t_base.len() + owned.len() + tail_len) by {
        lemma_user_communities_sql(true, false, by_name, by_categories);
    }
    assert(joined.len() == owned.len() + 123) by {
        reveal_strlit(
            "\n                WHERE c._id = (\n                    SELECT _community_id\n                    FROM community_memberships\n                    WHERE _user_id = \n                ",
        );
        reveal_strlit("\n                WHERE c.owner_id = \n                ");
        reveal_strlit(")");
    }
}

} // verus!
