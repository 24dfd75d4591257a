use blog_store::clock;
use blog_store::db::post::{create, delete, get, get_all, get_published, publish, purge, update};
use blog_store::db::post::serialize_categories;
use blog_store::db::Error;
use blog_store::models::NewPost;
use blog_store::storage::Store;

#[test]
fn test_post() {
    let ref mut conn = Store::new();
    // Create
    let title = "title1";
    let cats = vec!["tag1".into(), "tag2".into()];
    let body = "body1";

    let post = create(conn, title, Some(&cats), body).unwrap();
    assert!(post.title == title && post.category == "tag1,tag2"
            && post.body == body && post.published == false);
    assert!(post.created == post.last_edited);

    let post_id = post.id;

    // Retrieve draft
    let posts = get_published(conn, Some(post_id));
    assert!(posts.len() == 0);

    // Update, once the clock has moved on
    while clock::now() <= post.created {}
    let title = "title2";
    let body = "body2";

    let post = update(conn, post_id, title, None, body).unwrap();
    println!("created: {:?}, updated: {:?}", post.created, post.last_edited);
    assert!(post.title == title && post.category == ""
            && post.body == body && post.published == false);
    assert!(post.created < post.last_edited);
    assert!(post.last_edited - post.created < 500_000);

    // Publish
    let post = publish(conn, post_id).unwrap();
    assert!(post.published);

    // Retrieve published
    let ref post = get(conn, Some(post_id), false, false)[0];
    assert!(post.title == title && post.category == ""
            && post.body == body && post.published == true);

    // Delete
    let num = delete(conn, post.id).unwrap();
    assert!(num == 1);
    let num = purge(conn).unwrap();
    println!("purged: {}", num);
    assert!(num == 1);

    // Batch retrieve
    let pv1 = get_published(conn, None);
    let post1 = create(conn, "t1", Some(&cats), "b1").unwrap();
    let post2 = create(conn, "t2", None, "b2").unwrap();
    let pv2 = get_published(conn, None);
    assert!(pv2.len() == pv1.len());
    let post1 = publish(conn, post1.id).unwrap();
    let post2 = publish(conn, post2.id).unwrap();
    let pv2 = get_published(conn, None);
    assert!(pv2.len() == pv1.len() + 2);
    let num = delete(conn, post1.id).unwrap();
    assert!(num == 1);
    let num = delete(conn, post2.id).unwrap();
    assert!(num == 1);
    let num = purge(conn).unwrap();
    assert!(num == 2);
}

#[test]
fn no_categories_give_the_empty_text() {
    assert_eq!(serialize_categories(None), "");
    let none: Vec<String> = Vec::new();
    assert_eq!(serialize_categories(Some(&none)), "");
}

#[test]
fn categories_are_joined_by_commas() {
    let one = vec!["rust".to_string()];
    assert_eq!(serialize_categories(Some(&one)), "rust");
    let two = vec!["tag1".to_string(), "tag2".to_string()];
    assert_eq!(serialize_categories(Some(&two)), "tag1,tag2");
    let three = vec!["a".to_string(), String::new(), "c".to_string()];
    assert_eq!(serialize_categories(Some(&three)), "a,,c");
    let blanks = vec![String::new(), String::new()];
    assert_eq!(serialize_categories(Some(&blanks)), ",");
    let wide = vec!["caf\u{e9}".to_string(), "\u{65e5}\u{672c}".to_string()];
    assert_eq!(serialize_categories(Some(&wide)), "caf\u{e9},\u{65e5}\u{672c}");
}

#[test]
fn created_post_is_a_live_draft_with_the_next_id() {
    let mut store = Store::new();
    let first = create(&mut store, "a", None, "x").unwrap();
    let second = create(&mut store, "b", None, "y").unwrap();
    assert_eq!(first.id, 1);
    assert_eq!(second.id, 2);
    assert!(!second.published && !second.deleted);
    assert_eq!(second.created, second.last_edited);
    assert_eq!(get_all(&store).len(), 2);
    assert_eq!(get_all(&store)[0].title, "a");
    assert_eq!(get_all(&store)[1].title, "b");
}

#[test]
fn post_ids_are_not_handed_out_twice() {
    let mut store = Store::new();
    let first = create(&mut store, "a", None, "x").unwrap();
    delete(&mut store, first.id).unwrap();
    purge(&mut store).unwrap();
    let second = create(&mut store, "b", None, "y").unwrap();
    assert_eq!(second.id, 2);
}

#[test]
fn create_fails_where_no_id_is_left() {
    let mut store = Store::resumed(i32::MAX, 0, 0).unwrap();
    let r = create(&mut store, "a", None, "x");
    assert_eq!(r.err(), Some(Error::DatabaseError));
    assert_eq!(get_all(&store).len(), 0);
    let mut store = Store::resumed(i32::MAX - 1, 0, 0).unwrap();
    assert_eq!(create(&mut store, "a", None, "x").unwrap().id, i32::MAX);
    assert_eq!(create(&mut store, "b", None, "y").err(), Some(Error::DatabaseError));
}

#[test]
fn statements_stamp_the_instant_they_are_given() {
    let mut store = Store::new();
    let new = NewPost { title: "t".into(), category: "c".into(), body: "b".into() };
    let post = store.insert_post(new, 42).unwrap();
    assert_eq!((post.created, post.last_edited), (42, 42));
    let change = NewPost { title: "u".into(), category: String::new(), body: "v".into() };
    let post = store.update_post(post.id, change, 99).unwrap();
    assert_eq!((post.created, post.last_edited), (42, 99));
    assert_eq!(post.title, "u");
    assert_eq!(post.category, "");
    assert_eq!(post.body, "v");
    // an instant before the creation is stored as it is given
    let change = NewPost { title: "w".into(), category: String::new(), body: "x".into() };
    let post = store.update_post(post.id, change, 7).unwrap();
    assert_eq!((post.created, post.last_edited), (42, 7));
}

#[test]
fn update_keeps_the_flags_and_the_other_rows() {
    let mut store = Store::new();
    let a = create(&mut store, "a", None, "x").unwrap();
    let b = create(&mut store, "b", None, "y").unwrap();
    publish(&mut store, a.id).unwrap();
    delete(&mut store, a.id).unwrap();
    let cats = vec!["k".to_string()];
    let a2 = update(&mut store, a.id, "a2", Some(&cats), "x2").unwrap();
    assert!(a2.published && a2.deleted);
    assert_eq!(a2.id, a.id);
    assert_eq!(a2.created, a.created);
    assert_eq!(a2.category, "k");
    let rows = get_all(&store);
    assert_eq!(rows.len(), 2);
    assert_eq!(rows[0].title, "a2");
    assert_eq!(rows[1].title, "b");
    assert_eq!(rows[1].id, b.id);
}

#[test]
fn writes_to_a_missing_post_find_no_record() {
    let mut store = Store::new();
    create(&mut store, "a", None, "x").unwrap();
    assert_eq!(update(&mut store, 7, "t", None, "b").err(), Some(Error::RecordNotFound));
    assert_eq!(publish(&mut store, 7).err(), Some(Error::RecordNotFound));
    assert_eq!(delete(&mut store, 7), Err(Error::RecordNotFound));
    assert_eq!(delete(&mut store, 0), Err(Error::RecordNotFound));
    assert_eq!(delete(&mut store, -1), Err(Error::RecordNotFound));
    assert_eq!(get_all(&store).len(), 1);
    assert_eq!(get_all(&store)[0].title, "a");
}

#[test]
fn publish_and_delete_may_be_repeated() {
    let mut store = Store::new();
    let a = create(&mut store, "a", None, "x").unwrap();
    assert!(publish(&mut store, a.id).unwrap().published);
    assert!(publish(&mut store, a.id).unwrap().published);
    assert_eq!(delete(&mut store, a.id), Ok(1));
    assert_eq!(delete(&mut store, a.id), Ok(1));
    assert!(get(&store, Some(a.id), false, false)[0].deleted);
}

#[test]
fn filters_are_independent() {
    let mut store = Store::new();
    let draft = create(&mut store, "draft", None, "").unwrap();
    let live = create(&mut store, "live", None, "").unwrap();
    let gone = create(&mut store, "gone", None, "").unwrap();
    let hidden = create(&mut store, "hidden", None, "").unwrap();
    publish(&mut store, live.id).unwrap();
    publish(&mut store, gone.id).unwrap();
    delete(&mut store, gone.id).unwrap();
    delete(&mut store, hidden.id).unwrap();
    let titles = |rows: Vec<blog_store::models::Post>| -> Vec<String> {
        rows.into_iter().map(|p| p.title).collect()
    };
    assert_eq!(titles(get(&store, None, false, false)), vec!["draft", "live", "gone", "hidden"]);
    assert_eq!(titles(get(&store, None, true, false)), vec!["live", "gone"]);
    assert_eq!(titles(get(&store, None, false, true)), vec!["draft", "live"]);
    assert_eq!(titles(get(&store, None, true, true)), vec!["live"]);
    assert_eq!(titles(get_published(&store, None)), vec!["live"]);
    assert_eq!(titles(get_all(&store)), vec!["draft", "live", "gone", "hidden"]);
    assert_eq!(titles(get(&store, Some(draft.id), true, true)), Vec::<String>::new());
    assert_eq!(titles(get(&store, Some(gone.id), true, false)), vec!["gone"]);
    assert_eq!(titles(get(&store, Some(99), false, false)), Vec::<String>::new());
}

#[test]
fn purge_removes_marked_posts_only_and_may_be_repeated() {
    let mut store = Store::new();
    assert_eq!(purge(&mut store), Ok(0));
    let a = create(&mut store, "a", None, "").unwrap();
    let b = create(&mut store, "b", None, "").unwrap();
    let c = create(&mut store, "c", None, "").unwrap();
    delete(&mut store, a.id).unwrap();
    delete(&mut store, c.id).unwrap();
    // marked rows are still there
    assert_eq!(get(&store, Some(a.id), false, false).len(), 1);
    assert_eq!(get(&store, Some(a.id), false, true).len(), 0);
    assert_eq!(purge(&mut store), Ok(2));
    assert_eq!(get(&store, Some(a.id), false, false).len(), 0);
    let rows = get_all(&store);
    assert_eq!(rows.len(), 1);
    assert_eq!(rows[0].id, b.id);
    assert_eq!(purge(&mut store), Ok(0));
    assert_eq!(get_all(&store).len(), 1);
}

#[test]
fn published_listing_counts_newly_published_posts() {
    let mut store = Store::new();
    let before = get_published(&store, None).len();
    let a = create(&mut store, "a", None, "").unwrap();
    let b = create(&mut store, "b", None, "").unwrap();
    let c = create(&mut store, "c", None, "").unwrap();
    assert_eq!(get_published(&store, None).len(), before);
    publish(&mut store, a.id).unwrap();
    assert_eq!(get_published(&store, None).len(), before + 1);
    publish(&mut store, a.id).unwrap();
    assert_eq!(get_published(&store, None).len(), before + 1);
    delete(&mut store, b.id).unwrap();
    publish(&mut store, b.id).unwrap();
    assert_eq!(get_published(&store, None).len(), before + 1);
    publish(&mut store, c.id).unwrap();
    assert_eq!(get_published(&store, None).len(), before + 2);
}
