use body_control::error::Failure;
use body_control::route::{Handler, Matched, Method, Route, Segment, Site};
use body_control::startup::{run_migrations, Action, Event, Startup};
use body_control::text::{decimal, parse};
use body_control::{default_catcher, delay, diagnose, index, rocket, world};

fn segments(path: &[&str]) -> Vec<String> {
    path.iter().map(|s| s.to_string()).collect()
}

fn handler(site: &Site, method: Method, path: &[&str]) -> Result<Handler, Failure> {
    site.resolve(method, &segments(path)).map(|m| m.handler)
}

#[test]
fn greeting_at_the_root_and_at_hello_world() {
    assert_eq!(index(), "Hello, world!");
    assert_eq!(world(), "Hello, world!");
}

#[test]
fn unknown_path_gets_a_diagnostic_naming_it() {
    let site = rocket();
    let refusal = site.resolve(Method::Get, &segments(&["does-not-exist"])).expect_err("no route");
    assert_eq!(refusal, Failure::NotFound);
    assert_eq!(refusal.status(), 404);
    let body = default_catcher(404, "/does-not-exist");
    assert_eq!(
        body,
        "'404 Not Found' \n I couldn't find '/does-not-exist'. Try something else?"
    );
    assert!(body.contains("/does-not-exist"));
}

#[test]
fn diagnostic_shows_the_status_as_the_server_displays_it() {
    assert_eq!(
        default_catcher(422, "/weight/"),
        "'422 Unprocessable Entity' \n I couldn't find '/weight/'. Try something else?"
    );
    assert_eq!(
        default_catcher(500, "/member/"),
        "'500 Internal Server Error' \n I couldn't find '/member/'. Try something else?"
    );
    assert_eq!(
        diagnose("418 I'm a teapot", "/tea?milk=1"),
        "'418 I'm a teapot' \n I couldn't find '/tea?milk=1'. Try something else?"
    );
    assert_eq!(diagnose("", ""), "'' \n I couldn't find ''. Try something else?");
}

#[test]
fn delay_echoes_the_seconds() {
    assert_eq!(delay(5), "Waited for 5 seconds");
    assert_eq!(delay(0), "Waited for 0 seconds");
    assert_eq!(delay(u64::MAX), "Waited for 18446744073709551615 seconds");
}

#[test]
fn numbers_are_written_in_decimal() {
    assert_eq!(decimal(0), "0");
    assert_eq!(decimal(9), "9");
    assert_eq!(decimal(10), "10");
    assert_eq!(decimal(1203), "1203");
    assert_eq!(decimal(u64::MAX), "18446744073709551615");
}

#[test]
fn seconds_are_read_from_decimal() {
    assert_eq!(parse("5"), Some(5));
    assert_eq!(parse("+5"), Some(5));
    assert_eq!(parse("007"), Some(7));
    assert_eq!(parse("0"), Some(0));
    assert_eq!(parse("18446744073709551615"), Some(u64::MAX));
    assert_eq!(parse("18446744073709551616"), None);
    assert_eq!(parse("99999999999999999999999"), None);
    assert_eq!(parse("99999999999999999999999x"), None);
    assert_eq!(parse(""), None);
    assert_eq!(parse("+"), None);
    assert_eq!(parse("-5"), None);
    assert_eq!(parse("++5"), None);
    assert_eq!(parse("5+"), None);
    assert_eq!(parse("1 "), None);
    assert_eq!(parse("abc"), None);
    assert_eq!(parse("\u{ff15}"), None);
}

#[test]
fn reading_agrees_with_the_standard_parser() {
    for text in ["5", "+5", "007", "", "+", "-5", "1e3", "18446744073709551615", "18446744073709551616", " 1"] {
        assert_eq!(parse(text), text.parse::<u64>().ok());
    }
    for n in [0u64, 1, 9, 10, 99, 100, 12345, u64::MAX - 1, u64::MAX] {
        assert_eq!(decimal(n), n.to_string());
        assert_eq!(parse(&decimal(n)), Some(n));
    }
}

#[test]
fn site_has_nine_routes_in_mounting_order() {
    let site = rocket();
    let handlers: Vec<Handler> = site.routes.iter().map(|r| r.handler).collect();
    assert_eq!(
        handlers,
        vec![
            Handler::Index,
            Handler::World,
            Handler::Delay,
            Handler::MemberCreate,
            Handler::MemberList,
            Handler::MemberDelete,
            Handler::WeightCreate,
            Handler::WeightList,
            Handler::WeightDelete,
        ]
    );
    assert_eq!(
        site.routes[5],
        Route {
            method: Method::Delete,
            path: vec![Segment::Fixed("member".to_string()), Segment::Param],
            handler: Handler::MemberDelete,
        }
    );
    assert_eq!(
        site.routes[1],
        Route {
            method: Method::Get,
            path: vec![Segment::Fixed("hello".to_string()), Segment::Fixed("world".to_string())],
            handler: Handler::World,
        }
    );
}

#[test]
fn requests_reach_their_handlers() {
    let site = rocket();
    assert_eq!(handler(&site, Method::Get, &[]), Ok(Handler::Index));
    assert_eq!(handler(&site, Method::Get, &["hello", "world"]), Ok(Handler::World));
    assert_eq!(handler(&site, Method::Get, &["delay", "3"]), Ok(Handler::Delay));
    assert_eq!(handler(&site, Method::Post, &["member"]), Ok(Handler::MemberCreate));
    assert_eq!(handler(&site, Method::Get, &["member"]), Ok(Handler::MemberList));
    assert_eq!(handler(&site, Method::Delete, &["member", "m-1"]), Ok(Handler::MemberDelete));
    assert_eq!(handler(&site, Method::Post, &["weight"]), Ok(Handler::WeightCreate));
    assert_eq!(handler(&site, Method::Get, &["weight"]), Ok(Handler::WeightList));
    assert_eq!(handler(&site, Method::Delete, &["weight", "w-1"]), Ok(Handler::WeightDelete));
}

#[test]
fn matched_route_captures_its_parameter() {
    let site = rocket();
    assert_eq!(
        site.resolve(Method::Delete, &segments(&["member", "m-1"])),
        Ok(Matched { route: 5, handler: Handler::MemberDelete, params: vec!["m-1".to_string()] })
    );
    assert_eq!(
        site.resolve(Method::Get, &segments(&["delay", "12"])),
        Ok(Matched { route: 2, handler: Handler::Delay, params: vec!["12".to_string()] })
    );
    assert_eq!(
        site.resolve(Method::Get, &segments(&["member"])),
        Ok(Matched { route: 4, handler: Handler::MemberList, params: vec![] })
    );
}

#[test]
fn other_requests_reach_no_handler() {
    let site = rocket();
    assert_eq!(handler(&site, Method::Post, &[]), Err(Failure::NotFound));
    assert_eq!(handler(&site, Method::Get, &["hello"]), Err(Failure::NotFound));
    assert_eq!(handler(&site, Method::Get, &["hello", "there"]), Err(Failure::NotFound));
    assert_eq!(handler(&site, Method::Get, &["delay"]), Err(Failure::NotFound));
    assert_eq!(handler(&site, Method::Put, &["member"]), Err(Failure::NotFound));
    assert_eq!(handler(&site, Method::Delete, &["member"]), Err(Failure::NotFound));
    assert_eq!(handler(&site, Method::Get, &["member", "m-1"]), Err(Failure::NotFound));
    assert_eq!(handler(&site, Method::Delete, &["member", "m-1", "x"]), Err(Failure::NotFound));
    assert_eq!(handler(&site, Method::Patch, &["weight", "w-1"]), Err(Failure::NotFound));
    assert_eq!(handler(&site, Method::Get, &["Member"]), Err(Failure::NotFound));
}

#[test]
fn routes_are_mounted_under_their_base() {
    let mut site = Site::new();
    let routes = vec![
        Route::new(Method::Get, vec![Segment::Param], Handler::Delay),
        Route::new(Method::Get, vec![], Handler::Index),
    ];
    site.mount(&segments(&["a", "b"]), routes);
    assert_eq!(
        site.routes,
        vec![
            Route {
                method: Method::Get,
                path: vec![
                    Segment::Fixed("a".to_string()),
                    Segment::Fixed("b".to_string()),
                    Segment::Param,
                ],
                handler: Handler::Delay,
            },
            Route {
                method: Method::Get,
                path: vec![Segment::Fixed("a".to_string()), Segment::Fixed("b".to_string())],
                handler: Handler::Index,
            },
        ]
    );
    let route = &site.routes[0];
    assert!(route.matches(Method::Get, &segments(&["a", "b", "c"])));
    assert!(!route.matches(Method::Get, &segments(&["a", "x", "c"])));
    assert!(!route.matches(Method::Post, &segments(&["a", "b", "c"])));
    assert_eq!(route.captures(&segments(&["a", "b", "c"])), vec!["c".to_string()]);
}

#[test]
fn startup_serves_only_after_the_migrations() {
    assert_eq!(
        run_migrations(Startup::Igniting, Event::PoolFound),
        (Startup::Migrating, Action::Migrate)
    );
    assert_eq!(
        run_migrations(Startup::Migrating, Event::Migrated),
        (Startup::Ready, Action::Launch)
    );
    assert_eq!(
        run_migrations(Startup::Igniting, Event::PoolMissing),
        (Startup::Failed, Action::Abort)
    );
    assert_eq!(
        run_migrations(Startup::Migrating, Event::MigrationFailed),
        (Startup::Failed, Action::Abort)
    );
}

#[test]
fn startup_ignores_events_out_of_turn() {
    assert_eq!(
        run_migrations(Startup::Igniting, Event::Migrated),
        (Startup::Igniting, Action::Ignore)
    );
    assert_eq!(
        run_migrations(Startup::Failed, Event::Migrated),
        (Startup::Failed, Action::Ignore)
    );
    assert_eq!(
        run_migrations(Startup::Failed, Event::PoolFound),
        (Startup::Failed, Action::Ignore)
    );
    assert_eq!(
        run_migrations(Startup::Ready, Event::MigrationFailed),
        (Startup::Ready, Action::Ignore)
    );
}
