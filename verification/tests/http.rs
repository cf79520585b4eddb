use coffee_hit::http::{find_bytes, plan_request, read_progress, response_head, Progress, Route};

#[test]
fn finding_bytes() {
    assert_eq!(find_bytes(b"GET / HTTP/1.1\r\n\r\nbody", b"\r\n\r\n"), Some(14));
    assert_eq!(find_bytes(b"abc", b"\r\n\r\n"), None);
    assert_eq!(find_bytes(b"aaab", b"ab"), Some(2));
}

#[test]
fn request_progress() {
    assert_eq!(read_progress(b"GET / HTTP/1.1\r\nHost: x"), Progress::NeedMore);
    assert_eq!(read_progress(b"GET / HTTP/1.1\r\nHost: x\r\n\r\n"), Progress::Complete);
    assert_eq!(read_progress(b"POST /api/recipes HTTP/1.1\r\nContent-Length: 5\r\n\r\nab"), Progress::NeedMore);
    assert_eq!(read_progress(b"POST /api/recipes HTTP/1.1\r\ncontent-LENGTH:  5 \r\n\r\nabcde"), Progress::Complete);
    assert_eq!(read_progress(b"POST / HTTP/1.1\r\nContent-Length: x\r\nContent-Length: 2\r\n\r\nab"), Progress::Complete);
    let big = vec![b'a'; 1_000_001];
    assert_eq!(read_progress(&big), Progress::TooLarge);
}

#[test]
fn planning_requests() {
    let p = plan_request("GET /api/state?recipe=House&time=25 HTTP/1.1\r\nHost: x\r\n\r\n");
    assert_eq!(p.route, Route::State);
    assert_eq!(p.recipe.as_deref(), Some("House"));
    assert_eq!(p.target_time, "25");
    let p = plan_request("GET /api/state?time= HTTP/1.1\r\n\r\n");
    assert_eq!(p.target_time, "30");
    let p = plan_request("POST /api/samples HTTP/1.1\r\nContent-Length: 40\r\n\r\nrecipe=House&time=28&grind=12&target_time=");
    assert_eq!(p.route, Route::AddSample);
    assert_eq!(p.form.len(), 4);
    assert_eq!(p.target_time, "");
    let p = plan_request("POST /api/recipes/delete HTTP/1.1\r\n\r\nrecipe=House");
    assert_eq!(p.route, Route::DeleteRecipe);
    assert!(p.recipe.is_none());
    assert_eq!(p.target_time, "30");
    assert_eq!(plan_request("GET /index.html HTTP/1.1\r\n\r\n").route, Route::Page);
    assert_eq!(plan_request("GET / HTTP/1.1").route, Route::Page);
    assert_eq!(plan_request("PUT / HTTP/1.1\r\n\r\n").route, Route::NotFound);
    assert_eq!(plan_request("").route, Route::NotFound);
}

#[test]
fn response_header() {
    assert_eq!(
        response_head("200 OK", "text/html; charset=utf-8", 12),
        "HTTP/1.1 200 OK\r\nContent-Type: text/html; charset=utf-8\r\nContent-Length: 12\r\nCache-Control: no-store\r\nConnection: close\r\n\r\n"
    );
}

#[test]
fn web_page_is_the_app() {
    let page = coffee_hit::page::web_app_html();
    assert!(page.starts_with("<!doctype html>"));
    assert!(page.contains("<title>Coffee Dial-In</title>"));
    assert!(page.trim_end().ends_with("</html>"));
}
