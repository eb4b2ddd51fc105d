use playout::output::{build_filter, needs_drawtext, output};
use playout::utils::{GlobalConfig, Out, Processing, Storage, Text};

fn strings(items: &[&str]) -> Vec<String> {
    items.iter().map(|s| s.to_string()).collect()
}

fn config(add_text: bool, over_pre: bool, preview: bool) -> GlobalConfig {
    GlobalConfig {
        processing: Processing { mode: "playlist".to_string() },
        storage: Storage { path: "/media".to_string() },
        text: Text { add_text, over_pre, bind_address: "127.0.0.1:5555".to_string() },
        out: Out {
            preview,
            preview_cmd: strings(&["-s", "512x288", "-f", "opengl", "preview"]),
            output_cmd: strings(&["-c:v", "libx264", "-f", "flv", "rtmp://localhost/live/stream"]),
        },
    }
}

const DRAWTEXT: &str = "zmq=b=tcp\\\\://'127.0.0.1\\:5555',drawtext=text=''";

#[test]
fn overlay_and_preview_split_the_graph() {
    let cmd = output(&config(true, false, true), "level+error", DRAWTEXT);
    let graph = format!("[0:v]null,{},split=2[v_out1][v_out2]", DRAWTEXT);
    let expected = strings(&[
        "-hide_banner",
        "-nostats",
        "-v",
        "level+error",
        "-re",
        "-i",
        "pipe:0",
        "-filter_complex",
        graph.as_str(),
        "-map",
        "[v_out1]",
        "-map",
        "0:a",
        "-s",
        "512x288",
        "-f",
        "opengl",
        "preview",
        "-map",
        "[v_out2]",
        "-map",
        "0:a",
        "-c:v",
        "libx264",
        "-f",
        "flv",
        "rtmp://localhost/live/stream",
    ]);
    assert_eq!(cmd, expected);
    assert_eq!(cmd.iter().filter(|a| a.as_str() == "-filter_complex").count(), 1);
    assert_eq!(cmd[7], "-filter_complex");
    assert!(cmd[8].ends_with(",split=2[v_out1][v_out2]"));
}

#[test]
fn overlay_without_preview_adds_only_the_filter() {
    let cmd = output(&config(true, false, false), "level+info", DRAWTEXT);
    let graph = format!("[0:v]null,{}", DRAWTEXT);
    let expected = strings(&[
        "-hide_banner",
        "-nostats",
        "-v",
        "level+info",
        "-re",
        "-i",
        "pipe:0",
        "-filter_complex",
        graph.as_str(),
        "-c:v",
        "libx264",
        "-f",
        "flv",
        "rtmp://localhost/live/stream",
    ]);
    assert_eq!(cmd, expected);
}

#[test]
fn preview_alone_passes_the_fragment_through() {
    let cmd = output(&config(false, false, true), "level+error", DRAWTEXT);
    let expected = strings(&[
        "-hide_banner",
        "-nostats",
        "-v",
        "level+error",
        "-re",
        "-i",
        "pipe:0",
        "-s",
        "512x288",
        "-f",
        "opengl",
        "preview",
        "-c:v",
        "libx264",
        "-f",
        "flv",
        "rtmp://localhost/live/stream",
    ]);
    assert_eq!(cmd, expected);
    assert!(!cmd.iter().any(|a| a == "-filter_complex"));
    assert!(!cmd.iter().any(|a| a == "-map"));
}

#[test]
fn overlay_drawn_upstream_counts_as_no_overlay() {
    let with_preview = output(&config(true, true, true), "level+error", DRAWTEXT);
    assert_eq!(with_preview, output(&config(false, false, true), "level+error", ""));
    let without_preview = output(&config(true, true, false), "level+error", DRAWTEXT);
    assert_eq!(without_preview, output(&config(false, false, false), "level+error", ""));
}

#[test]
fn plain_output_is_base_and_output_arguments() {
    let cmd = output(&config(false, false, false), "level+warning", DRAWTEXT);
    let expected = strings(&[
        "-hide_banner",
        "-nostats",
        "-v",
        "level+warning",
        "-re",
        "-i",
        "pipe:0",
        "-c:v",
        "libx264",
        "-f",
        "flv",
        "rtmp://localhost/live/stream",
    ]);
    assert_eq!(cmd, expected);
}

#[test]
fn empty_fragments_leave_only_what_the_builder_adds() {
    let mut settings = config(true, false, true);
    settings.out.preview_cmd = Vec::new();
    settings.out.output_cmd = Vec::new();
    let cmd = output(&settings, "quiet", "");
    let expected = strings(&[
        "-hide_banner",
        "-nostats",
        "-v",
        "quiet",
        "-re",
        "-i",
        "pipe:0",
        "-filter_complex",
        "[0:v]null,,split=2[v_out1][v_out2]",
        "-map",
        "[v_out1]",
        "-map",
        "0:a",
        "-map",
        "[v_out2]",
        "-map",
        "0:a",
    ]);
    assert_eq!(cmd, expected);
}

#[test]
fn building_twice_gives_the_same_command() {
    let settings = config(true, false, true);
    let first = output(&settings, "level+error", DRAWTEXT);
    let second = output(&settings, "level+error", DRAWTEXT);
    assert_eq!(first, second);
    let copy = settings.clone();
    assert_eq!(output(&copy, "level+error", DRAWTEXT), first);
}

#[test]
fn building_leaves_the_fragments_in_place() {
    let settings = config(true, false, true);
    let _ = output(&settings, "level+error", DRAWTEXT);
    assert_eq!(settings.out.preview_cmd, strings(&["-s", "512x288", "-f", "opengl", "preview"]));
    assert_eq!(settings.out.output_cmd.len(), 5);
}

#[test]
fn filter_graph_with_and_without_split() {
    assert_eq!(build_filter("drawtext=text='x'", false), "[0:v]null,drawtext=text='x'");
    assert_eq!(
        build_filter("drawtext=text='x'", true),
        "[0:v]null,drawtext=text='x',split=2[v_out1][v_out2]"
    );
    assert_eq!(build_filter("", false), "[0:v]null,");
}

#[test]
fn drawtext_is_needed_only_for_an_overlay_not_yet_drawn() {
    assert!(needs_drawtext(&config(true, false, false)));
    assert!(needs_drawtext(&config(true, false, true)));
    assert!(!needs_drawtext(&config(true, true, true)));
    assert!(!needs_drawtext(&config(false, false, true)));
    assert!(!needs_drawtext(&config(false, true, false)));
}
