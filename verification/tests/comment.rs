use blog_store::clock;
use blog_store::db::comment::{create, delete, get, purge, update};
use blog_store::db::Error;
use blog_store::db::{post, visitor};
use blog_store::models::NewComment;
use blog_store::storage::Store;

#[test]
fn test_comment() {
    let ref mut conn = Store::new();
    // Create
    let title = "title1";
    let cats = vec!["tag1".into(), "tag2".into()];
    let body = "body1";

    let post = post::create(conn, title, Some(&cats), body).unwrap();
    let post = post::publish(conn, post.id).unwrap();

    let body = "comment body";
    let visitor = visitor::create(conn, "visitor1", "test@test.com", None).unwrap();
    let comment = create(conn, post.id, visitor.id, body).unwrap();
    assert!(comment.body == body);
    assert!(comment.vid == visitor.id, "vid: {}, visitor id: {}", comment.vid, visitor.id);
    assert!(comment.pid == post.id, "pid: {}, post id: {}", comment.pid, post.id);

    // Delete
    let num = delete(conn, comment.id).unwrap();
    assert!(num == 1);
    let num = purge(conn).unwrap();
    println!("purged: {}", num);
    assert!(num == 1);

    visitor::delete(conn, visitor.id).unwrap();
    post::delete(conn, post.id).unwrap();
    post::purge(conn).unwrap();
}

#[test]
fn comment_on_a_draft_from_end_to_end() {
    let mut store = Store::new();
    let p = post::create(&mut store, "P", None, "draft").unwrap();
    assert!(!p.published);
    let v = visitor::create(&mut store, "V", "v@example.org", None).unwrap();
    let c = create(&mut store, p.id, v.id, "C").unwrap();
    assert_eq!(c.body, "C");
    assert_eq!(c.pid, p.id);
    assert_eq!(c.vid, v.id);
    assert_eq!(c.created, c.last_edited);
    assert!(!c.deleted);
    assert_eq!(delete(&mut store, c.id), Ok(1));
    let purged = purge(&mut store).unwrap();
    assert!(purged >= 1);
    assert_eq!(get(&store, None, false).len(), 0);
}

#[test]
fn comment_needs_its_post_and_its_visitor() {
    let mut store = Store::new();
    let p = post::create(&mut store, "P", None, "").unwrap();
    let v = visitor::create(&mut store, "V", "v@example.org", None).unwrap();
    assert_eq!(create(&mut store, p.id + 1, v.id, "x").err(), Some(Error::ForeignKeyViolation));
    assert_eq!(create(&mut store, p.id, v.id + 1, "x").err(), Some(Error::ForeignKeyViolation));
    assert_eq!(create(&mut store, 0, 0, "x").err(), Some(Error::ForeignKeyViolation));
    assert_eq!(get(&store, None, false).len(), 0);
    // a refused comment uses up no id
    assert_eq!(create(&mut store, p.id, v.id, "x").unwrap().id, 1);
    // a post that is marked as deleted still has its row
    post::delete(&mut store, p.id).unwrap();
    assert_eq!(create(&mut store, p.id, v.id, "y").unwrap().id, 2);
    post::purge(&mut store).unwrap();
    assert_eq!(create(&mut store, p.id, v.id, "z").err(), Some(Error::ForeignKeyViolation));
}

#[test]
fn missing_reference_comes_before_missing_id() {
    let mut store = Store::resumed(0, 0, i32::MAX).unwrap();
    assert_eq!(create(&mut store, 1, 1, "x").err(), Some(Error::ForeignKeyViolation));
    let p = post::create(&mut store, "P", None, "").unwrap();
    let v = visitor::create(&mut store, "V", "v@example.org", None).unwrap();
    assert_eq!(create(&mut store, p.id, v.id, "x").err(), Some(Error::DatabaseError));
}

#[test]
fn comment_update_stamps_the_instant() {
    let mut store = Store::new();
    let p = post::create(&mut store, "P", None, "").unwrap();
    let v = visitor::create(&mut store, "V", "v@example.org", None).unwrap();
    let c = create(&mut store, p.id, v.id, "first").unwrap();
    while clock::now() <= c.created {}
    let c2 = update(&mut store, c.id, "second").unwrap();
    assert_eq!(c2.body, "second");
    assert_eq!((c2.id, c2.pid, c2.vid, c2.created), (c.id, c.pid, c.vid, c.created));
    assert!(c2.created < c2.last_edited);
    assert!(c2.last_edited - c2.created < 500_000);
    assert_eq!(update(&mut store, c.id + 1, "x").err(), Some(Error::RecordNotFound));

    let new = NewComment { pid: p.id, vid: v.id, body: "third".into() };
    let d = store.insert_comment(new, 10).unwrap();
    assert_eq!((d.created, d.last_edited), (10, 10));
    let d = store.update_comment(d.id, "fourth".into(), 25).unwrap();
    assert_eq!((d.created, d.last_edited), (10, 25));
}

#[test]
fn comments_are_read_with_and_without_the_deleted() {
    let mut store = Store::new();
    let p = post::create(&mut store, "P", None, "").unwrap();
    let v = visitor::create(&mut store, "V", "v@example.org", None).unwrap();
    let a = create(&mut store, p.id, v.id, "a").unwrap();
    let b = create(&mut store, p.id, v.id, "b").unwrap();
    assert_eq!(delete(&mut store, a.id), Ok(1));
    assert_eq!(delete(&mut store, a.id), Ok(1));
    assert_eq!(delete(&mut store, 99), Err(Error::RecordNotFound));
    assert_eq!(get(&store, None, false).len(), 2);
    assert_eq!(get(&store, None, true).len(), 1);
    assert_eq!(get(&store, None, true)[0].id, b.id);
    assert_eq!(get(&store, Some(a.id), false).len(), 1);
    assert!(get(&store, Some(a.id), false)[0].deleted);
    assert_eq!(get(&store, Some(a.id), true).len(), 0);
    assert_eq!(purge(&mut store), Ok(1));
    assert_eq!(purge(&mut store), Ok(0));
    assert_eq!(get(&store, None, false).len(), 1);
    assert_eq!(get(&store, None, false)[0].body, "b");
}
