use thaw_cli::dev_loop::{
    asset_indices, asset_subset, classify, rebuild_steps, should_reload, sources, BundledAsset,
    DevLoop, Rebuild, ServerMode, Step, Supervisor,
};

fn asset(src: &str, out: &str) -> BundledAsset<u8> {
    BundledAsset { absolute_source_path: src.to_string(), output_path: out.to_string(), options: 0 }
}

fn two_assets() -> Vec<BundledAsset<u8>> {
    vec![asset("/p/a.css", "/p/dist/assets/a.css"), asset("/p/b.png", "/p/dist/assets/b.png")]
}

fn paths(p: &[&str]) -> Vec<String> {
    p.iter().map(|s| s.to_string()).collect()
}

#[test]
fn subset_when_every_path_is_a_source() {
    let assets = two_assets();
    let sub = asset_subset(&assets, &paths(&["/p/b.png", "/p/a.css"])).unwrap();
    assert_eq!(sub.len(), 2);
    assert_eq!(sub[0].output_path, "/p/dist/assets/b.png");
    assert_eq!(sub[1].output_path, "/p/dist/assets/a.css");
}

#[test]
fn no_subset_when_a_path_is_not_a_source() {
    let assets = two_assets();
    assert!(asset_subset(&assets, &paths(&["/p/a.css", "/p/src/lib.rs"])).is_none());
    assert!(asset_subset(&[] as &[BundledAsset<u8>], &paths(&["/p/a.css"])).is_none());
    assert_eq!(asset_indices(&assets, &paths(&[])), Some(vec![]));
}

#[test]
fn index_html_alone_regenerates_it_in_csr() {
    let assets = two_assets();
    let r = classify(ServerMode::Csr, &"/p/index.html".to_string(), &assets, &paths(&["/p/index.html"]));
    assert!(matches!(r, Rebuild::IndexHtml));
    assert_eq!(rebuild_steps(ServerMode::Csr, &r), vec![Step::BuildIndexHtml]);
}

#[test]
fn index_html_in_ssr_or_with_others_is_a_full_rebuild() {
    let assets = two_assets();
    let index = "/p/index.html".to_string();
    assert!(matches!(classify(ServerMode::Ssr, &index, &assets, &paths(&["/p/index.html"])), Rebuild::Full));
    assert!(matches!(
        classify(ServerMode::Csr, &index, &assets, &paths(&["/p/index.html", "/p/a.css"])),
        Rebuild::Full
    ));
}

#[test]
fn touching_one_asset_refreshes_only_it_without_compiling() {
    let dev = DevLoop::new(ServerMode::Csr, "/p/index.html".to_string(), two_assets());
    let (rebuild, steps) = dev.plan(&paths(&["/p/a.css"]));
    match rebuild {
        Rebuild::Assets(v) => assert_eq!(v, vec![0]),
        _ => panic!("expected an asset rebuild"),
    }
    assert_eq!(steps, vec![Step::RefreshAsset(0)]);
    assert!(!steps.iter().any(|s| matches!(s, Step::CompileCsr | Step::CompileHydrate | Step::CompileSsr)));
}

#[test]
fn source_change_rebuilds_csr_in_order() {
    let dev = DevLoop::new(ServerMode::Csr, "/p/index.html".to_string(), two_assets());
    let (rebuild, steps) = dev.plan(&paths(&["/p/src/lib.rs"]));
    assert!(matches!(rebuild, Rebuild::Full));
    assert_eq!(
        steps,
        vec![Step::CompileCsr, Step::ClearOutDir, Step::CreateAssetsDir, Step::CollectAssets, Step::Bindgen, Step::WatchAssets]
    );
}

#[test]
fn source_change_restarts_the_ssr_backend_after_copying() {
    let steps = rebuild_steps(ServerMode::Ssr, &Rebuild::Full);
    assert_eq!(
        steps,
        vec![
            Step::CompileHydrate,
            Step::ClearClientAssets,
            Step::Bindgen,
            Step::CompileSsr,
            Step::CollectAssets,
            Step::WatchAssets,
            Step::StopBackend,
            Step::CopyExecutable,
            Step::StartBackend,
        ]
    );
}

#[test]
fn reload_only_after_success() {
    assert!(should_reload::<String>(&Ok(())));
    assert!(!should_reload(&Err("build failed".to_string())));
}

#[test]
fn new_assets_replace_the_watched_sources() {
    let mut dev = DevLoop::new(ServerMode::Csr, "/p/index.html".to_string(), two_assets());
    let (unwatch, watch) = dev.watch_assets(vec![asset("/p/c.svg", "/p/dist/assets/c.svg")]);
    assert_eq!(unwatch, paths(&["/p/a.css", "/p/b.png"]));
    assert_eq!(watch, paths(&["/p/c.svg"]));
    assert_eq!(sources(&dev.assets), paths(&["/p/c.svg"]));
}

#[test]
fn supervisor_holds_one_backend() {
    let mut s: Supervisor<u32> = Supervisor::new();
    assert!(!s.is_running());
    s.start(1);
    assert!(s.is_running());
    assert_eq!(s.stop(), Some(1));
    assert!(!s.is_running());
    assert_eq!(s.stop(), None);
    s.start(2);
    assert_eq!(s.stop(), Some(2));
}
