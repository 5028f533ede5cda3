use client::assets::asset_request_path;

#[test]
fn asset_paths_live_under_the_assets_folder() {
    assert_eq!(asset_request_path("characters.png"), "assets/characters.png");
    assert_eq!(asset_request_path(""), "assets/");
    assert_eq!(asset_request_path("sub/dir/x.ogg"), "assets/sub/dir/x.ogg");
}
