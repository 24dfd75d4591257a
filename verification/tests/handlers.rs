use blog_store::db;
use blog_store::db::Error;
use blog_store::handlers::errors::not_found;
use blog_store::handlers::post::PostInput;
use blog_store::handlers::{comment, post, visitor};
use blog_store::handlers::{comment_create_problem, comment_update_problem, write_problem};
use blog_store::handlers::{Problem, Reply};
use blog_store::index;
use blog_store::models::{NewComment, NewVisitor};
use blog_store::storage::Store;

fn input(title: &str, categories: &[&str], body: &str) -> PostInput {
    PostInput {
        title: title.to_string(),
        categories: categories.iter().map(|c| c.to_string()).collect(),
        body: body.to_string(),
    }
}

#[test]
fn root_greets() {
    assert_eq!(index(), "Hello rocket!");
}

#[test]
fn missing_page_names_the_path() {
    assert_eq!(not_found("/nowhere"), "<p>Page /nowhere not found<p>");
    assert_eq!(not_found(""), "<p>Page  not found<p>");
    assert_eq!(not_found("/post/7?x=1"), "<p>Page /post/7?x=1 not found<p>");
}

#[test]
fn replies_are_worded() {
    assert_eq!(Reply::Done { id: 3 }.status(), "ok");
    assert_eq!(Reply::Failed { problem: Problem::NotFound }.status(), "error");
    assert_eq!(Reply::DatabaseError.status(), "database error");
    assert_eq!(Problem::NotFound.description(), "not found");
    assert_eq!(Problem::InvalidReference.description(), "Invalid post id or visitor id");
    assert_eq!(Problem::Database.description(), "database error");
}

#[test]
fn errors_become_problems() {
    assert_eq!(write_problem(Error::RecordNotFound), Problem::NotFound);
    assert_eq!(write_problem(Error::ForeignKeyViolation), Problem::Database);
    assert_eq!(write_problem(Error::UniqueViolation), Problem::Database);
    assert_eq!(write_problem(Error::DatabaseError), Problem::Database);
    assert_eq!(comment_create_problem(Error::ForeignKeyViolation), Problem::InvalidReference);
    assert_eq!(comment_create_problem(Error::RecordNotFound), Problem::Database);
    assert_eq!(comment_create_problem(Error::UniqueViolation), Problem::Database);
    assert_eq!(comment_create_problem(Error::DatabaseError), Problem::Database);
    assert_eq!(comment_update_problem(Error::RecordNotFound), Problem::NotFound);
    assert_eq!(comment_update_problem(Error::ForeignKeyViolation), Problem::InvalidReference);
    assert_eq!(comment_update_problem(Error::UniqueViolation), Problem::Database);
    assert_eq!(comment_update_problem(Error::DatabaseError), Problem::Database);
}

#[test]
fn empty_list_of_categories_counts_as_none() {
    assert!(input("t", &[], "b").categories().is_none());
    let some = input("t", &["a", "b"], "b");
    assert_eq!(some.categories(), Some(&vec!["a".to_string(), "b".to_string()]));
}

#[test]
fn post_requests_from_draft_to_deleted() {
    let mut store = Store::new();
    assert_eq!(post::create(&mut store, &input("t1", &["tag1", "tag2"], "b1")), Reply::Done { id: 1 });
    assert_eq!(post::create(&mut store, &input("t2", &[], "b2")), Reply::Done { id: 2 });
    let rows = db::post::get_all(&store);
    assert_eq!(rows[0].category, "tag1,tag2");
    assert_eq!(rows[1].category, "");

    // drafts are not served
    assert_eq!(post::get_all(&store).len(), 0);
    assert!(post::get(&store, 1).is_none());

    assert_eq!(post::publish(&mut store, 1), Reply::Done { id: 1 });
    assert_eq!(post::publish(&mut store, 9), Reply::Failed { problem: Problem::NotFound });
    assert_eq!(post::get_all(&store).len(), 1);
    let served = post::get(&store, 1).unwrap();
    assert_eq!(served.title, "t1");
    assert!(served.published);
    assert!(post::get(&store, 2).is_none());
    assert!(post::get(&store, 9).is_none());

    assert_eq!(post::update(&mut store, 1, &input("t1b", &[], "b1b")), Reply::Done { id: 1 });
    assert_eq!(
        post::update(&mut store, 9, &input("x", &[], "y")),
        Reply::Failed { problem: Problem::NotFound }
    );
    let served = post::get(&store, 1).unwrap();
    assert_eq!((served.title.as_str(), served.category.as_str(), served.body.as_str()), ("t1b", "", "b1b"));

    assert_eq!(post::delete(&mut store, 1), Reply::Done { id: 1 });
    assert_eq!(post::delete(&mut store, 9), Reply::Failed { problem: Problem::NotFound });
    assert!(post::get(&store, 1).is_none());
    assert_eq!(post::get_all(&store).len(), 0);
    assert_eq!(db::post::get_all(&store).len(), 2);
}

#[test]
fn post_request_fails_where_no_id_is_left() {
    let mut store = Store::resumed(i32::MAX, 0, 0).unwrap();
    assert_eq!(post::create(&mut store, &input("t", &[], "b")), Reply::DatabaseError);
}

#[test]
fn visitor_requests() {
    let mut store = Store::new();
    let ann = NewVisitor { name: "ann".into(), mail: "ann@example.org".into(), site: None };
    let bob = NewVisitor {
        name: "bob".into(),
        mail: "bob@example.org".into(),
        site: Some("https://bob.example".into()),
    };
    assert_eq!(visitor::create(&mut store, &ann), Reply::Done { id: 1 });
    assert_eq!(visitor::create(&mut store, &bob), Reply::Done { id: 2 });
    assert_eq!(visitor::get_all(&store).len(), 2);
    assert_eq!(visitor::get(&store, 2).unwrap().site, Some("https://bob.example".to_string()));
    assert!(visitor::get(&store, 3).is_none());

    assert_eq!(visitor::update(&mut store, 1, &bob), Reply::Done { id: 1 });
    assert_eq!(visitor::update(&mut store, 3, &bob), Reply::Failed { problem: Problem::NotFound });
    assert_eq!(visitor::get(&store, 1).unwrap().name, "bob");

    assert_eq!(visitor::delete(&mut store, 1), Reply::Done { id: 1 });
    assert_eq!(visitor::delete(&mut store, 1), Reply::Failed { problem: Problem::NotFound });
    assert!(visitor::get(&store, 1).is_none());
    assert_eq!(visitor::get_all(&store).len(), 1);

    let mut full = Store::resumed(0, i32::MAX, 0).unwrap();
    assert_eq!(visitor::create(&mut full, &ann), Reply::DatabaseError);
}

#[test]
fn comment_requests() {
    let mut store = Store::new();
    let stray = NewComment { pid: 1, vid: 1, body: "c".into() };
    assert_eq!(
        comment::create(&mut store, &stray),
        Reply::Failed { problem: Problem::InvalidReference }
    );
    post::create(&mut store, &input("t", &[], "b"));
    assert_eq!(
        comment::create(&mut store, &stray),
        Reply::Failed { problem: Problem::InvalidReference }
    );
    let ann = NewVisitor { name: "ann".into(), mail: "ann@example.org".into(), site: None };
    visitor::create(&mut store, &ann);
    assert_eq!(comment::create(&mut store, &stray), Reply::Done { id: 1 });
    assert_eq!(comment::get(&store, 1).unwrap().body, "c");
    assert!(comment::get(&store, 2).is_none());

    // an update takes the body only
    let other = NewComment { pid: 77, vid: 88, body: "d".into() };
    assert_eq!(comment::update(&mut store, 1, &other), Reply::Done { id: 1 });
    assert_eq!(comment::update(&mut store, 2, &other), Reply::Failed { problem: Problem::NotFound });
    let c = comment::get(&store, 1).unwrap();
    assert_eq!((c.pid, c.vid, c.body.as_str()), (1, 1, "d"));

    assert_eq!(comment::delete(&mut store, 1), Reply::Done { id: 1 });
    assert_eq!(comment::delete(&mut store, 2), Reply::Failed { problem: Problem::NotFound });
    // one deleted comment is not served, the list still holds it
    assert!(comment::get(&store, 1).is_none());
    assert_eq!(comment::get_all(&store).len(), 1);
    assert!(comment::get_all(&store)[0].deleted);

    let mut full = Store::resumed(0, 0, i32::MAX).unwrap();
    post::create(&mut full, &input("t", &[], "b"));
    visitor::create(&mut full, &ann);
    assert_eq!(comment::create(&mut full, &stray), Reply::Failed { problem: Problem::Database });
}
