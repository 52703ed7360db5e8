//! The walkthrough of the service's documentation: register, log in, create
//! an application, list the applications; the collections are played by
//! vectors.
use rscms::handler::app::{
    create_app, create_app_found, create_app_inserted, get_user_id_from_token, list_apps,
    list_apps_found, CreateStep, ListAppsQuery, ListStep, LookupStep, ReplyBody, Status,
};
use rscms::handler::auth::{login, register, register_finish, RegisterStep};
use rscms::model::app::{App, AppFilter, CreateAppRequest};
use rscms::model::auth::{LoginRequest, RegisterRequest, User};
use rscms::model::object_id::DocId;

fn selects(f: &AppFilter, a: &App) -> bool {
    f.id.map_or(true, |id| a.id.map(|i| i.bytes) == Some(id.bytes))
        && f.owner_id.map_or(true, |o| o.bytes == a.owner_id.bytes)
}

#[test]
fn register_login_create_and_list() {
    let mut users: Vec<User> = Vec::new();
    let mut apps: Vec<App> = Vec::new();

    // Register.
    let form = RegisterRequest { email: "test2@example.com".to_string(), password: "password".to_string() };
    let mut user = match register(Ok(None), &form) {
        RegisterStep::Insert(u) => u,
        RegisterStep::Reply(r) => panic!("{}", r.msg),
    };
    user.id = Some(DocId { bytes: [0x65, 0x1a, 0, 0, 0, 0, 0, 0, 0, 0, 0, 1] });
    users.push(user);
    let done = register_finish(Ok(()));
    assert_eq!(done.code, 0);
    assert_eq!(done.data.unwrap().message, "注册成功");

    // Log in.
    let found = users.iter().position(|u| u.email == "test2@example.com").map(|i| users.remove(i));
    let reply = login(Ok(found), &LoginRequest { email: "test2@example.com".to_string(), password: "password".to_string() });
    assert_eq!(reply.code, 0);
    let data = reply.data.unwrap();
    let owner = data.user.id.unwrap();
    let header = format!("Bearer {}", data.token.token);

    // Create an application.
    let user_id = get_user_id_from_token(Some(header.as_bytes())).unwrap();
    assert_eq!(user_id.bytes, owner.bytes);
    let payload = CreateAppRequest { name: "MyApp".to_string(), description: "My first app".to_string() };
    let mut app = match create_app(Ok(user_id), &payload) {
        CreateStep::Insert(a) => a,
        CreateStep::Reply(_) => panic!("not created"),
    };
    let new_id = DocId { bytes: [7; 12] };
    app.id = Some(new_id);
    apps.push(app);
    let filter = match create_app_inserted(Ok(new_id)) {
        LookupStep::Find(f) => f,
        LookupStep::Reply(_) => panic!("no lookup"),
    };
    let found = apps.iter().position(|a| selects(&filter, a)).map(|i| apps.remove(i));
    let created = create_app_found(Ok(found));
    assert_eq!(created.status, Status::Success);
    match created.body {
        ReplyBody::App(a) => {
            assert_eq!(a.name, "MyApp");
            apps.push(a);
        },
        _ => panic!("no app"),
    }

    // List the applications.
    let other = App {
        id: Some(DocId { bytes: [8; 12] }),
        name: "Other".to_string(),
        description: String::new(),
        owner_id: DocId { bytes: [9; 12] },
        created_at: 0,
        updated_at: 0,
    };
    apps.push(other);
    let (filter, skip, limit) = match list_apps(Ok(user_id), &ListAppsQuery { page: None, page_size: None }) {
        ListStep::Find { filter, skip, limit } => (filter, skip, limit),
        ListStep::Reply(_) => panic!("not listed"),
    };
    let listed: Vec<App> = apps
        .into_iter()
        .filter(|a| selects(&filter, a))
        .skip(skip as usize)
        .take(limit as usize)
        .collect();
    let reply = list_apps_found(listed);
    match reply.body {
        ReplyBody::Apps(v) => {
            assert_eq!(v.len(), 1);
            assert_eq!(v[0].name, "MyApp");
        },
        _ => panic!("no list"),
    }
}
