use recorder::json::Json;
use recorder::platforms::bilibili::wbi::{
    get_sign, mixin_key, user_info_parameters, user_info_url, wbi_mixin_key, wbi_signed_query,
};

fn obj(members: Vec<(&str, Json)>) -> Json {
    Json::Object(members.into_iter().map(|(k, v)| (k.to_string(), v)).collect())
}

fn nav(img: &str, sub: &str) -> Json {
    obj(vec![(
        "data",
        obj(vec![(
            "wbi_img",
            obj(vec![("img_url", Json::Str(img.to_string())), ("sub_url", Json::Str(sub.to_string()))]),
        )]),
    )])
}

fn pairs(items: &[(&str, &str)]) -> Vec<(String, String)> {
    items.iter().map(|(k, v)| (k.to_string(), v.to_string())).collect()
}

#[test]
fn mixin_key_mixes_the_image_keys() {
    assert_eq!(
        mixin_key("7cd084941338484aae1ad9425b84077c", "4932caff0ff746eab6f01bf08b70ac45"),
        "ea1db124af3c7062474693fa704f4ff8"
    );
    let answer = nav(
        "https://i0.hdslb.com/bfs/wbi/7cd084941338484aae1ad9425b84077c.png",
        "https://i0.hdslb.com/bfs/wbi/4932caff0ff746eab6f01bf08b70ac45.png",
    );
    assert_eq!(wbi_mixin_key(&answer).as_deref(), Some("ea1db124af3c7062474693fa704f4ff8"));
    assert_eq!(wbi_mixin_key(&nav("https://x/a.png", "https://x/b.png")), None);
    assert_eq!(wbi_mixin_key(&nav("https://x/wbi/short.png", "https://x/wbi/keys.png")), None);
    assert_eq!(wbi_mixin_key(&obj(vec![])), None);
}

#[test]
fn queries_are_sorted_filtered_encoded_and_signed() {
    let mixin = "ea1db124af3c7062474693fa704f4ff8";
    let q = wbi_signed_query(&pairs(&[("foo", "114"), ("bar", "514"), ("zab", "1919810")]), mixin, 1702204169);
    assert_eq!(q, "bar=514&foo=114&wts=1702204169&zab=1919810&w_rid=8f6f2b5b3d485fe1886cec6a0be8c5d4");
    let q = wbi_signed_query(&pairs(&[("wts", "old"), ("a", "x y/z!()")]), mixin, 5);
    assert_eq!(q, "a=x%20y%2Fz&wts=5&w_rid=2b6a38600d406c6986764205c62783a2");
}

#[test]
fn user_queries_carry_the_user_and_a_signature() {
    let params = user_info_parameters("42");
    assert_eq!(params[0], ("mid".to_string(), "42".to_string()));
    assert_eq!(params.len(), 5);
    let answer = nav(
        "https://i0.hdslb.com/bfs/wbi/7cd084941338484aae1ad9425b84077c.png",
        "https://i0.hdslb.com/bfs/wbi/4932caff0ff746eab6f01bf08b70ac45.png",
    );
    let signed = get_sign(&answer, &params).unwrap();
    assert!(signed.starts_with("mid=42&platform=web&token=&w_webid=&web_location=1550101&wts="));
    assert!(signed.contains("&w_rid="));
    assert_eq!(user_info_url("a=1"), "https://api.bilibili.com/x/space/wbi/acc/info?a=1");
    assert_eq!(get_sign(&obj(vec![]), &params), None);
}
