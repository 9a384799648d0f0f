use package_publisher::init::{from_skeleton, render};

fn skeleton(files: &[(&str, &str)]) -> Vec<(Vec<u8>, Vec<u8>)> {
    files
        .iter()
        .map(|(p, c)| (p.as_bytes().to_vec(), c.as_bytes().to_vec()))
        .collect()
}

#[test]
fn handlebars_files_are_rendered_and_lose_the_suffix() {
    let values = skeleton(&[("port", "3000")]);
    let out = render(b"Exofile.yml.handlebars", b"upstream: {{port}}", &values)
        .expect("renders");
    assert_eq!(out.0.as_slice(), b"Exofile.yml");
    assert_eq!(out.1.as_slice(), b"upstream: 3000");
}

#[test]
fn plain_files_are_carried_unchanged() {
    let out = render(b"docker-compose.yml", b"services: {{not a template}}", &Vec::new())
        .expect("carries over");
    assert_eq!(out.0.as_slice(), b"docker-compose.yml");
    assert_eq!(out.1.as_slice(), b"services: {{not a template}}");
}

#[test]
fn whole_skeleton_renders_in_order() {
    let files = skeleton(&[
        ("Exofile.yml.handlebars", "port: {{port}}"),
        ("README.md", "plain text"),
    ]);
    let values = skeleton(&[("port", "8080")]);
    let out = from_skeleton(&files, &values).expect("renders");
    assert_eq!(out.len(), 2);
    assert_eq!(out[0].0.as_slice(), b"Exofile.yml");
    assert_eq!(out[0].1.as_slice(), b"port: 8080");
    assert_eq!(out[1].0.as_slice(), b"README.md");
    assert_eq!(out[1].1.as_slice(), b"plain text");
}

#[test]
fn a_bad_template_fails_the_whole_skeleton() {
    let files = skeleton(&[
        ("fine.md", "plain text"),
        ("broken.handlebars", "{{#if}}{{/each}}"),
    ]);
    assert_eq!(from_skeleton(&files, &Vec::new()), Err(1));
}

#[test]
fn non_utf8_content_is_refused_in_both_branches() {
    let values: Vec<(Vec<u8>, Vec<u8>)> = Vec::new();
    assert!(render(b"raw.bin", &[0xFF, 0xFE, 0x00], &values).is_none());
    assert!(render(b"tpl.handlebars", &[0xFF, 0xFE, 0x00], &values).is_none());
    let files = vec![
        (b"ok.txt".to_vec(), b"text".to_vec()),
        (b"raw.bin".to_vec(), vec![0xFFu8]),
    ];
    assert_eq!(from_skeleton(&files, &values), Err(1));
}

#[test]
fn platform_generators_render_their_skeletons() {
    let files = skeleton(&[("Exofile.yml", "name: app")]);
    let rails = package_publisher::init::rails::generate(&files).expect("renders");
    assert_eq!(rails[0].1.as_slice(), b"name: app");
    let svelte = package_publisher::init::svelte::generate(&files).expect("renders");
    assert_eq!(svelte[0].1.as_slice(), b"name: app");
    let laravel = package_publisher::init::laravel_artisan::generate(&files).expect("renders");
    assert_eq!(laravel[0].1.as_slice(), b"name: app");
    let synapse = package_publisher::init::matrix_synapse::generate(&files).expect("renders");
    assert_eq!(synapse[0].1.as_slice(), b"name: app");
}

#[test]
fn proxy_generator_substitutes_the_port() {
    let files = skeleton(&[("Exofile.yml.handlebars", "upstream port {{port}}")]);
    let out = package_publisher::init::proxy::generate(&files, 8080).expect("renders");
    assert_eq!(out[0].0.as_slice(), b"Exofile.yml");
    assert_eq!(out[0].1.as_slice(), b"upstream port 8080");
}
