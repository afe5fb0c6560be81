use hyper::header::Cookie;

use wechat::server::{
    init_body_of, init_url_of, login_page_url_of, on_init_reply, on_login_page, on_redirect,
    on_uuid, parse_login_ticket, parse_redirect_uri, parse_uuid, poll_url_of, qr_code_url_of,
    LoginAction, LoginError, LoginEvent, LoginState, LoginTicket, QR_FILE,
};
use wechat::session::{cookie_pair_of, WeChat};

const UUID_PAGE: &str = "window.QRLogin.code = 200; window.QRLogin.uuid = \"gYmgd1grLQ==\";";
const CONFIRM_PAGE: &str = "window.code=200;\nwindow.redirect_uri=\"https://web.wechat.com/cgi-bin/mmwebwx-bin/webwxnewloginpage?ticket=Au1v@qrticket_0&uuid=oZYNmWV5SQ==&lang=zh_CN&scan=1487767062\";";
const LOGIN_PAGE: &str = "<error><ret>0</ret><message></message><skey>@crypt_1d2_f0</skey><wxsid>SiD+x</wxsid><wxuin>2887</wxuin><pass_ticket>p%2Bt</pass_ticket><isgrayscale>1</isgrayscale></error>";

fn page(text: &str) -> LoginEvent {
    LoginEvent::Page(text.to_string())
}

fn cookies_of(session: &WeChat) -> Vec<String> {
    session.headers().get::<Cookie>().unwrap().0.clone()
}

#[test]
fn session_starts_with_fixed_headers() {
    let session = WeChat::new();
    let headers = session.headers();
    assert_eq!(headers.get_raw("Host").unwrap(), &[b"web.wechat.com".to_vec()][..]);
    assert_eq!(headers.get_raw("contenttype").unwrap(), &[b"application/json; charset=UTF-8".to_vec()][..]);
    assert_eq!(headers.get_raw("Referer").unwrap(), &[b"https://web.wechat.com/?&lang=zh_CN".to_vec()][..]);
    assert_eq!(headers.get_raw("Accept").unwrap(), &[b"application/json, text/plain, */*".to_vec()][..]);
    assert_eq!(cookies_of(&session), vec![String::new()]);
    assert_eq!(headers.len(), 5);
}

#[test]
fn cookie_pair_takes_text_before_semicolon() {
    assert_eq!(cookie_pair_of("wxuin=2887; Domain=wechat.com; Path=/"), "wxuin=2887");
    assert_eq!(cookie_pair_of("webwx_data_ticket=abc"), "webwx_data_ticket=abc");
    assert_eq!(cookie_pair_of(";x=1"), "");
    assert_eq!(cookie_pair_of(""), "");
}

#[test]
fn set_cookies_appends_pairs_in_order() {
    let mut session = WeChat::new();
    session.set_cookies(&vec!["wxuin=2887; Domain=wechat.com".to_string(), "wxsid=SiD; Path=/".to_string()]);
    assert_eq!(cookies_of(&session), vec!["".to_string(), "wxuin=2887".to_string(), "wxsid=SiD".to_string()]);
    session.set_cookies(&vec!["a=b".to_string()]);
    assert_eq!(cookies_of(&session), vec!["".to_string(), "wxuin=2887".to_string(), "wxsid=SiD".to_string(), "a=b".to_string()]);
    let headers = session.headers();
    assert_eq!(headers.get_raw("Host").unwrap(), &[b"web.wechat.com".to_vec()][..]);
    assert_eq!(headers.len(), 5);
}

#[test]
fn addresses_are_built_from_their_parts() {
    assert_eq!(qr_code_url_of("gYmgd1grLQ=="), "https://login.weixin.qq.com/qrcode/gYmgd1grLQ==");
    assert_eq!(poll_url_of("u1", true), "https://login.weixin.qq.com/cgi-bin/mmwebwx-bin/login?uuid=u1&tip=1");
    assert_eq!(poll_url_of("u1", false), "https://login.weixin.qq.com/cgi-bin/mmwebwx-bin/login?uuid=u1&tip=0");
    assert_eq!(login_page_url_of("https://x/y?a=1"), "https://x/y?a=1&fun=new");
    assert_eq!(
        init_url_of("PT", "SK"),
        "https://web.wechat.com/cgi-bin/mmwebwx-bin/webwxinit?lang=zh_CN&pass_ticket=PT&skey=SK"
    );
    assert_eq!(
        init_body_of("1", "2", "3"),
        "{ \"BaseRequest\": { \"Uin\": \"1\", \"Sid\": \"2\", \"Skey\": \"3\", \"DeviceID\": \"\" } }"
    );
}

#[test]
fn pages_are_parsed_with_patterns() {
    assert_eq!(parse_uuid(UUID_PAGE), Some("gYmgd1grLQ==".to_string()));
    assert_eq!(parse_uuid("window.QRLogin.code = 400;"), None);
    assert_eq!(
        parse_redirect_uri(CONFIRM_PAGE),
        Some("https://web.wechat.com/cgi-bin/mmwebwx-bin/webwxnewloginpage?ticket=Au1v@qrticket_0&uuid=oZYNmWV5SQ==&lang=zh_CN&scan=1487767062".to_string())
    );
    assert_eq!(parse_redirect_uri("window.code=408;"), None);
    assert_eq!(
        parse_login_ticket(LOGIN_PAGE),
        Ok(LoginTicket {
            skey: "@crypt_1d2_f0".to_string(),
            sid: "SiD+x".to_string(),
            uin: "2887".to_string(),
            pass_ticket: "p%2Bt".to_string(),
        })
    );
}

#[test]
fn login_ticket_reports_first_missing_key() {
    assert_eq!(parse_login_ticket("<wxsid>a</wxsid>"), Err(LoginError::MissingSkey));
    assert_eq!(parse_login_ticket("<skey>a</skey>"), Err(LoginError::MissingSid));
    assert_eq!(parse_login_ticket("<skey>a</skey><wxsid>b</wxsid>"), Err(LoginError::MissingUin));
    assert_eq!(
        parse_login_ticket("<skey>a</skey><wxsid>b</wxsid><wxuin>c</wxuin>"),
        Err(LoginError::MissingPassTicket)
    );
}

#[test]
fn login_runs_to_the_end() {
    let mut session = WeChat::new();
    let state = LoginState::new();
    let (state, act) = state.step(&mut session, LoginEvent::Start);
    assert_eq!(state, LoginState::AwaitingUuid);
    assert_eq!(act, LoginAction::Fetch { url: "https://login.web.wechat.com/jslogin?appid=wx782c26e4c19acffb".to_string() });

    let (state, act) = state.step(&mut session, page(UUID_PAGE));
    assert_eq!(state, LoginState::SavingQrCode { uuid: "gYmgd1grLQ==".to_string() });
    assert_eq!(act, LoginAction::SaveQrCode {
        url: "https://login.weixin.qq.com/qrcode/gYmgd1grLQ==".to_string(),
        path: "/tmp/qr.png".to_string(),
    });

    let (state, act) = state.step(&mut session, LoginEvent::QrCodeSaved);
    assert_eq!(state, LoginState::AwaitingScan { uuid: "gYmgd1grLQ==".to_string() });
    assert_eq!(act, LoginAction::ShowQrCode {
        path: QR_FILE.to_string(),
        url: "https://login.weixin.qq.com/cgi-bin/mmwebwx-bin/login?uuid=gYmgd1grLQ==&tip=1".to_string(),
    });

    let (state, act) = state.step(&mut session, page("window.code=201;"));
    assert_eq!(state, LoginState::AwaitingConfirm { uuid: "gYmgd1grLQ==".to_string() });
    assert_eq!(act, LoginAction::Poll {
        url: "https://login.weixin.qq.com/cgi-bin/mmwebwx-bin/login?uuid=gYmgd1grLQ==&tip=0".to_string(),
    });

    let (state, act) = state.step(&mut session, page(CONFIRM_PAGE));
    assert_eq!(state, LoginState::AwaitingLoginPage);
    assert_eq!(act, LoginAction::OpenLoginPage {
        url: "https://web.wechat.com/cgi-bin/mmwebwx-bin/webwxnewloginpage?ticket=Au1v@qrticket_0&uuid=oZYNmWV5SQ==&lang=zh_CN&scan=1487767062&fun=new".to_string(),
    });

    let cookies = vec!["wxuin=2887; Domain=wechat.com; Path=/".to_string(), "webwx_data_ticket=gSd; Path=/".to_string()];
    let (state, act) = state.step(&mut session, LoginEvent::LoginPage { body: LOGIN_PAGE.to_string(), cookies });
    assert_eq!(state, LoginState::AwaitingInit);
    assert_eq!(act, LoginAction::Post {
        url: "https://web.wechat.com/cgi-bin/mmwebwx-bin/webwxinit?lang=zh_CN&pass_ticket=p%2Bt&skey=@crypt_1d2_f0".to_string(),
        body: "{ \"BaseRequest\": { \"Uin\": \"2887\", \"Sid\": \"SiD+x\", \"Skey\": \"@crypt_1d2_f0\", \"DeviceID\": \"\" } }".to_string(),
    });
    assert_eq!(cookies_of(&session), vec!["".to_string(), "wxuin=2887".to_string(), "webwx_data_ticket=gSd".to_string()]);

    let (state, act) = state.step(&mut session, page("{\"BaseResponse\": {\"Ret\": 0}}"));
    assert_eq!(state, LoginState::LoggedIn);
    assert_eq!(act, LoginAction::Finish);
}

#[test]
fn login_without_uuid_aborts() {
    let mut session = WeChat::new();
    let (state, _) = LoginState::Idle.step(&mut session, LoginEvent::Start);
    let (state, act) = state.step(&mut session, page("nothing here"));
    assert_eq!(state, LoginState::Failed(LoginError::NoUuid));
    assert_eq!(act, LoginAction::Abort(LoginError::NoUuid));
}

#[test]
fn login_without_redirect_aborts() {
    let mut session = WeChat::new();
    let state = LoginState::AwaitingConfirm { uuid: "u".to_string() };
    let (state, act) = state.step(&mut session, page("window.code=408;"));
    assert_eq!(state, LoginState::Failed(LoginError::NoRedirect));
    assert_eq!(act, LoginAction::Abort(LoginError::NoRedirect));
}

#[test]
fn login_page_without_keys_keeps_no_cookies() {
    let mut session = WeChat::new();
    let (state, act) = LoginState::AwaitingLoginPage.step(
        &mut session,
        LoginEvent::LoginPage { body: "<skey>a</skey>".to_string(), cookies: vec!["x=1".to_string()] },
    );
    assert_eq!(state, LoginState::Failed(LoginError::MissingSid));
    assert_eq!(act, LoginAction::Abort(LoginError::MissingSid));
    assert_eq!(cookies_of(&session), vec![String::new()]);
}

#[test]
fn init_reply_that_is_not_json_aborts() {
    let mut session = WeChat::new();
    let (state, act) = LoginState::AwaitingInit.step(&mut session, page("<html>oops"));
    assert_eq!(state, LoginState::Failed(LoginError::InitNotJson));
    assert_eq!(act, LoginAction::Abort(LoginError::InitNotJson));
}

#[test]
fn unexpected_events_are_ignored() {
    let mut session = WeChat::new();
    let (state, act) = LoginState::Idle.step(&mut session, LoginEvent::QrCodeSaved);
    assert_eq!(state, LoginState::Idle);
    assert_eq!(act, LoginAction::Ignore);
    let (state, act) = LoginState::AwaitingUuid.step(&mut session, LoginEvent::Start);
    assert_eq!(state, LoginState::AwaitingUuid);
    assert_eq!(act, LoginAction::Ignore);
    let (state, act) = LoginState::AwaitingInit.step(
        &mut session,
        LoginEvent::LoginPage { body: LOGIN_PAGE.to_string(), cookies: vec!["x=1".to_string()] },
    );
    assert_eq!(state, LoginState::AwaitingInit);
    assert_eq!(act, LoginAction::Ignore);
    assert_eq!(cookies_of(&session), vec![String::new()]);
}

#[test]
fn finished_logins_stay_finished() {
    let mut session = WeChat::new();
    let events = vec![LoginEvent::Start, page(UUID_PAGE), LoginEvent::QrCodeSaved,
        LoginEvent::LoginPage { body: LOGIN_PAGE.to_string(), cookies: vec!["x=1".to_string()] }];
    for event in events {
        let (state, act) = LoginState::LoggedIn.step(&mut session, event);
        assert_eq!(state, LoginState::LoggedIn);
        assert_eq!(act, LoginAction::Ignore);
    }
    let (state, act) = LoginState::Failed(LoginError::NoUuid).step(&mut session, LoginEvent::Start);
    assert_eq!(state, LoginState::Failed(LoginError::NoUuid));
    assert_eq!(act, LoginAction::Ignore);
    assert_eq!(cookies_of(&session), vec![String::new()]);
}

#[test]
fn steps_on_parsed_results() {
    assert_eq!(on_uuid(None), (LoginState::Failed(LoginError::NoUuid), LoginAction::Abort(LoginError::NoUuid)));
    assert_eq!(on_uuid(Some("u=".to_string())).0, LoginState::SavingQrCode { uuid: "u=".to_string() });
    assert_eq!(on_redirect(None).1, LoginAction::Abort(LoginError::NoRedirect));
    assert_eq!(on_redirect(Some("r".to_string())).1, LoginAction::OpenLoginPage { url: "r&fun=new".to_string() });
    assert_eq!(on_init_reply(true), (LoginState::LoggedIn, LoginAction::Finish));
    assert_eq!(on_init_reply(false).0, LoginState::Failed(LoginError::InitNotJson));
    let mut session = WeChat::new();
    let ticket = LoginTicket { skey: "k".to_string(), sid: "s".to_string(), uin: "u".to_string(), pass_ticket: "p".to_string() };
    let (state, act) = on_login_page(Ok(ticket), &vec!["c=1; x".to_string()], &mut session);
    assert_eq!(state, LoginState::AwaitingInit);
    assert_eq!(act, LoginAction::Post {
        url: "https://web.wechat.com/cgi-bin/mmwebwx-bin/webwxinit?lang=zh_CN&pass_ticket=p&skey=k".to_string(),
        body: "{ \"BaseRequest\": { \"Uin\": \"u\", \"Sid\": \"s\", \"Skey\": \"k\", \"DeviceID\": \"\" } }".to_string(),
    });
    assert_eq!(cookies_of(&session), vec!["".to_string(), "c=1".to_string()]);
    let (state, _) = on_login_page(Err(LoginError::MissingUin), &vec!["d=2".to_string()], &mut session);
    assert_eq!(state, LoginState::Failed(LoginError::MissingUin));
    assert_eq!(cookies_of(&session), vec!["".to_string(), "c=1".to_string()]);
}
