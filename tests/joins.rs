use query_joins::certify::{appears_on_table, is_selectable};
use query_joins::expr::{Expr, Table};
use query_joins::kind::{Inner, JoinKind, LeftOuter};
use query_joins::source::{Join, JoinError, JoinOn, Source};

fn users() -> Table {
    Table::new(
        "users".to_string(),
        vec!["id".to_string(), "name".to_string()],
    )
}

fn posts() -> Table {
    Table::new(
        "posts".to_string(),
        vec!["id".to_string(), "user_id".to_string(), "title".to_string()],
    )
}

fn comments() -> Table {
    Table::new(
        "comments".to_string(),
        vec!["id".to_string(), "post_id".to_string()],
    )
}

fn col(table: &str, name: &str) -> Expr {
    Expr::Column { table: table.to_string(), name: name.to_string() }
}

fn users_id_eq_posts_user_id() -> Expr {
    Expr::Eq(Box::new(col("users", "id")), Box::new(col("posts", "user_id")))
}

fn users_posts(kind: JoinKind) -> Join {
    Join::new(Source::Table(users()), Source::Table(posts()), kind)
}

fn users_posts_on(kind: JoinKind) -> JoinOn {
    users_posts(kind).on(users_id_eq_posts_user_id()).unwrap()
}

fn sql_of(source: &Source) -> String {
    source.render().0
}

fn selection_sql(e: &Expr) -> String {
    let mut out = String::new();
    e.to_sql(&mut out);
    out
}

#[test]
fn inner_join_with_predicate_renders() {
    let (sql, binds, safe) = Source::JoinOn(users_posts_on(JoinKind::Inner)).render();
    assert_eq!(sql, "users INNER JOIN posts ON users.id = posts.user_id");
    assert!(binds.is_empty());
    assert!(safe);
}

#[test]
fn left_outer_join_with_predicate_renders() {
    let source = Source::JoinOn(users_posts_on(JoinKind::LeftOuter));
    let (sql, binds, safe) = source.render();
    assert_eq!(sql, "users LEFT OUTER JOIN posts ON users.id = posts.user_id");
    assert!(binds.is_empty());
    assert!(safe);
    let selection = source.default_selection();
    match &selection {
        Expr::Pair(left, right) => {
            assert!(matches!(&**left, Expr::AllColumns(t) if t.name == "users"));
            match &**right {
                Expr::Nullable(inner) => {
                    assert!(matches!(&**inner, Expr::AllColumns(t) if t.name == "posts"))
                }
                other => panic!("right side not nullable: {:?}", other),
            }
        }
        other => panic!("not a pair: {:?}", other),
    }
    assert_eq!(
        selection_sql(&selection),
        "users.id, users.name, posts.id, posts.user_id, posts.title"
    );
}

#[test]
fn inner_join_default_selection_is_not_nullable() {
    let selection = Source::Join(users_posts(JoinKind::Inner)).default_selection();
    match &selection {
        Expr::Pair(left, right) => {
            assert!(matches!(&**left, Expr::AllColumns(t) if t.name == "users"));
            assert!(matches!(&**right, Expr::AllColumns(t) if t.name == "posts"));
        }
        other => panic!("not a pair: {:?}", other),
    }
}

#[test]
fn join_on_keeps_the_join_default_selection() {
    let plain = Source::Join(users_posts(JoinKind::LeftOuter)).default_selection();
    let with_on = Source::JoinOn(users_posts_on(JoinKind::LeftOuter)).default_selection();
    assert_eq!(selection_sql(&plain), selection_sql(&with_on));
    assert!(matches!(&with_on, Expr::Pair(_, r) if matches!(&**r, Expr::Nullable(_))));
}

#[test]
fn joins_without_predicate_render() {
    assert_eq!(sql_of(&Source::Join(users_posts(JoinKind::Inner))), "users INNER JOIN posts");
    assert_eq!(
        sql_of(&Source::Join(users_posts(JoinKind::LeftOuter))),
        "users LEFT OUTER JOIN posts"
    );
}

#[test]
fn kind_keywords() {
    let mut out = String::from("x");
    Inner.to_sql(&mut out);
    assert_eq!(out, "x INNER");
    let mut out = String::new();
    LeftOuter.to_sql(&mut out);
    assert_eq!(out, " LEFT OUTER");
    let mut out = String::new();
    JoinKind::LeftOuter.to_sql(&mut out);
    assert_eq!(out, " LEFT OUTER");
    assert_eq!(Inner.kind(), JoinKind::Inner);
    assert_eq!(LeftOuter.kind(), JoinKind::LeftOuter);
    let mut binds = vec![3i64];
    Inner.collect_binds(&mut binds);
    LeftOuter.collect_binds(&mut binds);
    JoinKind::Inner.collect_binds(&mut binds);
    assert_eq!(binds, vec![3]);
    assert!(Inner.is_safe_to_cache_prepared());
    assert!(LeftOuter.is_safe_to_cache_prepared());
    assert!(JoinKind::Inner.is_safe_to_cache_prepared());
    assert!(JoinKind::LeftOuter.is_safe_to_cache_prepared());
}

#[test]
fn predicate_binds_follow_join_binds() {
    let inner = Join::new(Source::Table(users()), Source::Table(posts()), JoinKind::Inner)
        .on(Expr::And(
            Box::new(users_id_eq_posts_user_id()),
            Box::new(Expr::Eq(Box::new(col("users", "id")), Box::new(Expr::Bind(1)))),
        ))
        .unwrap();
    let outer = Join::new(Source::JoinOn(inner), Source::Table(comments()), JoinKind::LeftOuter)
        .on(Expr::Eq(Box::new(col("comments", "post_id")), Box::new(Expr::Bind(2))))
        .unwrap();
    let (sql, binds, safe) = Source::JoinOn(outer).render();
    assert_eq!(
        sql,
        "users INNER JOIN posts ON users.id = posts.user_id AND users.id = ? \
         LEFT OUTER JOIN comments ON comments.post_id = ?"
    );
    assert_eq!(binds, vec![1, 2]);
    assert!(safe);
}

#[test]
fn literal_sql_poisons_cache_safety() {
    let on = Expr::Eq(
        Box::new(col("users", "id")),
        Box::new(Expr::SqlLiteral("posts.user_id".to_string())),
    );
    let join_on = users_posts(JoinKind::Inner).on(on).unwrap();
    assert!(!join_on.is_safe_to_cache_prepared());
    let source = Source::JoinOn(join_on);
    let (sql, _, safe) = source.render();
    assert_eq!(sql, "users INNER JOIN posts ON users.id = posts.user_id");
    assert!(!safe);
    let nested = Join::new(source, Source::Table(comments()), JoinKind::Inner);
    assert!(!nested.is_safe_to_cache_prepared());
    assert!(users_posts(JoinKind::LeftOuter).is_safe_to_cache_prepared());
}

#[test]
fn rendering_twice_is_identical() {
    let inner = users_posts(JoinKind::Inner)
        .on(Expr::Eq(Box::new(col("users", "id")), Box::new(Expr::Bind(42))))
        .unwrap();
    let source = Source::JoinOn(inner);
    let first = source.render();
    let second = source.render();
    assert_eq!(first, second);
    assert_eq!(first.1, vec![42]);
}

#[test]
fn predicate_outside_the_join_is_refused() {
    let on = Expr::Eq(Box::new(col("users", "id")), Box::new(col("comments", "post_id")));
    let r = users_posts(JoinKind::Inner).on(on);
    assert!(matches!(r, Err(JoinError::InvalidJoinPredicate)));
}

#[test]
fn predicate_in_a_nested_join_is_accepted() {
    let inner = Source::JoinOn(users_posts_on(JoinKind::Inner));
    let on = Expr::Eq(Box::new(col("comments", "post_id")), Box::new(col("posts", "id")));
    let outer = Join::new(inner, Source::Table(comments()), JoinKind::Inner).on(on);
    assert!(outer.is_ok());
    let join_on = outer.unwrap();
    assert_eq!(
        selection_sql(join_on.predicate()),
        "comments.post_id = posts.id"
    );
    assert_eq!(join_on.join().kind(), JoinKind::Inner);
}

#[test]
fn nullable_right_columns_under_left_outer() {
    let outer = Source::Join(users_posts(JoinKind::LeftOuter));
    let outer_on = Source::JoinOn(users_posts_on(JoinKind::LeftOuter));
    let inner = Source::Join(users_posts(JoinKind::Inner));
    for source in [&outer, &outer_on] {
        assert!(!is_selectable(&col("posts", "title"), source));
        assert!(is_selectable(&col("posts", "title").nullable(), source));
        assert!(is_selectable(&col("users", "name"), source));
        assert!(!is_selectable(&col("comments", "id").nullable(), source));
        assert!(is_selectable(&source.default_selection(), source));
    }
    assert!(is_selectable(&col("posts", "title"), &inner));
    assert!(is_selectable(&col("posts", "title").nullable(), &inner));
    assert!(!is_selectable(&col("comments", "id"), &inner));
    assert!(is_selectable(&inner.default_selection(), &inner));
}

#[test]
fn nested_left_outer_columns() {
    let nested = Source::Join(Join::new(
        Source::Join(users_posts(JoinKind::LeftOuter)),
        Source::Table(comments()),
        JoinKind::Inner,
    ));
    assert!(!is_selectable(&col("posts", "id"), &nested));
    assert!(is_selectable(&col("posts", "id").nullable(), &nested));
    assert!(is_selectable(&col("comments", "id"), &nested));
    assert!(is_selectable(&nested.default_selection(), &nested));
}

#[test]
fn appears_on_table_checks_reachable_tables() {
    let outer = Source::Join(users_posts(JoinKind::LeftOuter));
    assert!(appears_on_table(&col("posts", "title"), &outer));
    assert!(appears_on_table(&users_id_eq_posts_user_id(), &outer));
    assert!(!appears_on_table(&col("comments", "id"), &outer));
    assert!(appears_on_table(&Expr::Bind(5), &outer));
    let users_only = Source::Table(users());
    assert!(appears_on_table(&col("users", "id"), &users_only));
    assert!(!appears_on_table(&col("posts", "id"), &users_only));
    assert!(users_only.has_table(&users()));
    assert!(!users_only.has_table(&posts()));
    assert!(users_only.has_column(&"users".to_string(), &"name".to_string()));
    assert!(!users_only.has_column(&"users".to_string(), &"title".to_string()));
    assert!(outer.has_column(&"posts".to_string(), &"title".to_string()));
    assert!(!outer.has_column(&"posts".to_string(), &"bogus".to_string()));
    assert!(!appears_on_table(&col("users", "bogus"), &outer));
}

#[test]
fn table_renders_its_name_and_columns() {
    let table = users();
    let copy = table.clone();
    assert_eq!(copy.name, "users");
    assert_eq!(copy.columns, vec!["id".to_string(), "name".to_string()]);
    assert_eq!(sql_of(&Source::Table(table)), "users");
    let empty = Table::new("t".to_string(), Vec::new());
    assert_eq!(selection_sql(&empty.all_columns()), "");
    let one = Table::new("t".to_string(), vec!["a".to_string()]);
    assert_eq!(selection_sql(&one.all_columns()), "t.a");
}

#[test]
fn join_accessors() {
    let join = users_posts(JoinKind::LeftOuter);
    assert_eq!(sql_of(join.left()), "users");
    assert_eq!(sql_of(join.right()), "posts");
    assert_eq!(join.kind(), JoinKind::LeftOuter);
    let mut out = String::new();
    join.to_sql(&mut out);
    assert_eq!(out, "users LEFT OUTER JOIN posts");
    let mut binds = Vec::new();
    join.collect_binds(&mut binds);
    assert!(binds.is_empty());
}

#[test]
fn predicate_on_an_unknown_column_is_refused() {
    let on = Expr::Eq(Box::new(col("users", "bogus")), Box::new(col("posts", "user_id")));
    let r = users_posts(JoinKind::Inner).on(on);
    assert!(matches!(r, Err(JoinError::InvalidJoinPredicate)));
    let on = Expr::Eq(Box::new(col("users", "id")), Box::new(col("posts", "name")));
    let r = users_posts(JoinKind::LeftOuter).on(on);
    assert!(matches!(r, Err(JoinError::InvalidJoinPredicate)));
}

#[test]
fn unknown_columns_are_not_selectable() {
    let users_only = Source::Table(users());
    assert!(is_selectable(&col("users", "name"), &users_only));
    assert!(!is_selectable(&col("users", "bogus"), &users_only));
    let invented = Table::new("users".to_string(), vec!["id".to_string(), "secret".to_string()]);
    assert!(!is_selectable(&invented.all_columns(), &users_only));
    assert!(!appears_on_table(&invented.all_columns(), &users_only));
    assert!(is_selectable(&users().all_columns(), &users_only));
    let inner = Source::Join(users_posts(JoinKind::Inner));
    assert!(!is_selectable(&col("posts", "bogus"), &inner));
    assert!(!is_selectable(&col("posts", "bogus").nullable(), &Source::Join(users_posts(JoinKind::LeftOuter))));
}

#[test]
fn tables_compare_by_name_and_columns() {
    assert!(users().same_as(&users()));
    assert!(!users().same_as(&posts()));
    let reordered = Table::new("users".to_string(), vec!["name".to_string(), "id".to_string()]);
    assert!(!users().same_as(&reordered));
    let shorter = Table::new("users".to_string(), vec!["id".to_string()]);
    assert!(!users().same_as(&shorter));
    assert!(users().has_column(&"id".to_string()));
    assert!(!users().has_column(&"user_id".to_string()));
}

#[test]
fn query_id_ignores_bound_values() {
    let with_bind = |v: i64| {
        Source::JoinOn(
            users_posts(JoinKind::Inner)
                .on(Expr::Eq(Box::new(col("users", "id")), Box::new(Expr::Bind(v))))
                .unwrap(),
        )
    };
    let first = with_bind(7).query_id().render();
    let second = with_bind(9).query_id().render();
    assert_eq!(first, second);
    assert_eq!(first.0, "users INNER JOIN posts ON users.id = ?");
    assert_eq!(first.1, vec![0]);
    assert_eq!(with_bind(7).render().1, vec![7]);
    let other = Source::JoinOn(users_posts_on(JoinKind::LeftOuter)).query_id().render();
    assert_ne!(first, other);
    let id = with_bind(3).query_id();
    assert!(is_selectable(&col("posts", "title"), &id));
}
