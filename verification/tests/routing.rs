use layout_backend::http::{
    route, DecodeError, Method, Route, Status, LOAD_LAYOUT_PATH, SAVE_LAYOUT_PATH,
};
use layout_backend::service::ServiceError;

#[test]
fn the_route_paths_are_fixed() {
    assert_eq!(SAVE_LAYOUT_PATH, "/save_layout");
    assert_eq!(LOAD_LAYOUT_PATH, "/load_layout");
}

#[test]
fn post_save_layout_is_routed_to_save() {
    assert_eq!(route(Method::Post, "/save_layout"), Route::SaveLayout);
}

#[test]
fn get_load_layout_is_routed_to_load() {
    assert_eq!(route(Method::Get, "/load_layout"), Route::LoadLayout);
}

#[test]
fn the_wrong_method_is_unmatched() {
    assert_eq!(route(Method::Get, "/save_layout"), Route::Unmatched);
    assert_eq!(route(Method::Post, "/load_layout"), Route::Unmatched);
    assert_eq!(route(Method::Options, "/save_layout"), Route::Unmatched);
    assert_eq!(route(Method::Options, "/load_layout"), Route::Unmatched);
    assert_eq!(route(Method::Other, "/save_layout"), Route::Unmatched);
    assert_eq!(route(Method::Other, "/load_layout"), Route::Unmatched);
}

#[test]
fn an_unknown_path_is_unmatched() {
    for method in [Method::Get, Method::Post, Method::Options, Method::Other] {
        assert_eq!(route(method, "/"), Route::Unmatched);
        assert_eq!(route(method, ""), Route::Unmatched);
        assert_eq!(route(method, "/layouts"), Route::Unmatched);
        assert_eq!(route(method, "/delete_layout"), Route::Unmatched);
    }
}

#[test]
fn a_path_must_match_to_the_letter() {
    assert_eq!(route(Method::Post, "save_layout"), Route::Unmatched);
    assert_eq!(route(Method::Post, "/save_layout/"), Route::Unmatched);
    assert_eq!(route(Method::Post, "/save_layout/extra"), Route::Unmatched);
    assert_eq!(route(Method::Post, "/Save_Layout"), Route::Unmatched);
    assert_eq!(route(Method::Post, "/save_layou"), Route::Unmatched);
    assert_eq!(route(Method::Get, "load_layout"), Route::Unmatched);
    assert_eq!(route(Method::Get, "/load_layout/"), Route::Unmatched);
    assert_eq!(route(Method::Get, "/LOAD_LAYOUT"), Route::Unmatched);
    assert_eq!(route(Method::Get, "/load_layout?x=1"), Route::Unmatched);
}

#[test]
fn methods_are_read_from_their_names() {
    assert_eq!(Method::from_token("GET"), Method::Get);
    assert_eq!(Method::from_token("POST"), Method::Post);
    assert_eq!(Method::from_token("OPTIONS"), Method::Options);
    for other in ["PUT", "DELETE", "HEAD", "PATCH", "TRACE", "CONNECT", "", "get", "Post", "GET "] {
        assert_eq!(Method::from_token(other), Method::Other);
    }
}

#[test]
fn methods_are_written_by_their_names() {
    assert_eq!(Method::Get.token(), Some("GET"));
    assert_eq!(Method::Post.token(), Some("POST"));
    assert_eq!(Method::Options.token(), Some("OPTIONS"));
    assert_eq!(Method::Other.token(), None);
}

#[test]
fn a_method_name_reads_back_as_the_method() {
    for method in [Method::Get, Method::Post, Method::Options] {
        let name = method.token().expect("the method has a name");
        assert_eq!(Method::from_token(name), method);
    }
}

#[test]
fn status_codes_are_those_of_http() {
    assert_eq!(Status::Success.code(), 200);
    assert_eq!(Status::BadRequest.code(), 400);
    assert_eq!(Status::NotFound.code(), 404);
}

#[test]
fn each_error_has_its_status() {
    assert_eq!(ServiceError::Decode(DecodeError::InvalidJson).status(), Status::BadRequest);
    assert_eq!(ServiceError::Decode(DecodeError::ShapeMismatch).status(), Status::BadRequest);
    assert_eq!(ServiceError::NotFound.status(), Status::NotFound);
    assert_eq!(ServiceError::RouteNotFound.status(), Status::NotFound);
}

#[test]
fn a_decode_error_is_a_client_error() {
    for cause in [DecodeError::InvalidJson, DecodeError::ShapeMismatch] {
        let code = ServiceError::Decode(cause).status().code();
        assert!((400..500).contains(&code));
    }
}
