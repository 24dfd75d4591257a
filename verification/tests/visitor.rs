use blog_store::db::visitor::{create, delete, get, update};
use blog_store::db::Error;
use blog_store::storage::Store;

#[test]
fn test_visitor() {
    let ref mut conn = Store::new();

    // Create
    let name = "visitor1";
    let mail = "test@test.com";
    let site = Some("a".into());

    let visitor = create(conn, name, mail, site.clone()).unwrap();
    assert!(visitor.name == name && visitor.mail == mail
            && visitor.site == site);

    let visitor_id = visitor.id;

    // Retrieve
    let ref visitor = get(conn, Some(visitor_id))[0];
    assert!(visitor.name == name && visitor.mail == mail
            && visitor.site == site);

    // Update
    let name = "visitor2";
    let mail = "test2@test.com";
    let site = None;
    let visitor = update(conn, visitor_id, name, mail, site).unwrap();
    assert!(visitor.name == name && visitor.mail == mail
            && visitor.site == None);

    // Delete
    let num = delete(conn, visitor_id).unwrap();
    assert!(num == 1);

}

#[test]
fn deleted_visitor_is_gone_for_good() {
    let mut store = Store::new();
    let a = create(&mut store, "a", "a@example.org", None).unwrap();
    let b = create(&mut store, "b", "b@example.org", Some("https://b.example".into())).unwrap();
    assert_eq!(delete(&mut store, a.id), Ok(1));
    assert_eq!(get(&store, Some(a.id)).len(), 0);
    assert_eq!(delete(&mut store, a.id), Err(Error::RecordNotFound));
    let rest = get(&store, None);
    assert_eq!(rest.len(), 1);
    assert_eq!(rest[0].id, b.id);
    assert_eq!(rest[0].site, Some("https://b.example".to_string()));
    let c = create(&mut store, "c", "c@example.org", None).unwrap();
    assert_eq!(c.id, 3);
    assert_eq!(get(&store, Some(a.id)).len(), 0);
}

#[test]
fn visitor_update_overwrites_and_keeps_the_creation() {
    let mut store = Store::new();
    let a = create(&mut store, "a", "a@example.org", Some("s".into())).unwrap();
    let b = create(&mut store, "b", "b@example.org", None).unwrap();
    let a2 = update(&mut store, a.id, "a2", "a2@example.org", None).unwrap();
    assert_eq!((a2.id, a2.created), (a.id, a.created));
    assert_eq!(a2.site, None);
    let b2 = update(&mut store, b.id, "b2", "b2@example.org", Some("t".into())).unwrap();
    assert_eq!(b2.site, Some("t".to_string()));
    let rows = get(&store, None);
    assert_eq!(rows.len(), 2);
    assert_eq!(rows[0].name, "a2");
    assert_eq!(rows[0].mail, "a2@example.org");
    assert_eq!(rows[1].name, "b2");
    assert_eq!(update(&mut store, 9, "x", "y", None).err(), Some(Error::RecordNotFound));
}

#[test]
fn visitor_create_fails_where_no_id_is_left() {
    let mut store = Store::resumed(0, i32::MAX, 0).unwrap();
    assert_eq!(create(&mut store, "a", "b", None).err(), Some(Error::DatabaseError));
    assert_eq!(get(&store, None).len(), 0);
}
