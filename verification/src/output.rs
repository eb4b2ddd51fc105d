//! The argument list of the encoder process.
//!
//! The list is a function of the settings, the log level and the text
//! overlay's filter fragment, which is generated elsewhere and handed in. It
//! is made of four blocks in a fixed order: the base block, the filter block,
//! the preview block and the caller's output arguments.

use vstd::prelude::*;
use crate::utils::{args, extend_args, push_arg, ConfigView, GlobalConfig};

verus! {

/// Whether the encoder itself has to draw the text overlay: it is wanted and
/// was not drawn upstream.
pub open spec fn draws_text(config: ConfigView) -> bool {
    config.add_text && !config.over_pre
}

/// The fixed head of every command: no banner, no statistics, the log level,
/// real-time pacing, and frames read from the process's input pipe.
pub open spec fn base_block(log_format: Seq<char>) -> Seq<Seq<char>> {
    seq!["-hide_banner"@, "-nostats"@, "-v"@, log_format, "-re"@, "-i"@, "pipe:0"@]
}

/// The filter graph: a pass-through of the video stream, a comma, the overlay
/// fragment, and with a preview a split into two labelled outputs.
pub open spec fn filter_graph(drawtext: Seq<char>, preview: bool) -> Seq<char> {
    let head = "[0:v]null,"@ + drawtext;
    if preview {
        head + ",split=2[v_out1][v_out2]"@
    } else {
        head
    }
}

/// The filter block: the option and its graph where the encoder draws the
/// text, nothing otherwise.
pub open spec fn filter_block(config: ConfigView, drawtext: Seq<char>) -> Seq<Seq<char>> {
    if draws_text(config) {
        seq!["-filter_complex"@, filter_graph(drawtext, config.preview)]
    } else {
        Seq::empty()
    }
}

/// The mapping of one split output together with the input's audio stream.
pub open spec fn map_block(label: Seq<char>) -> Seq<Seq<char>> {
    seq!["-map"@, label, "-map"@, "0:a"@]
}

/// The preview block: nothing without a preview; the caller's preview
/// arguments between the mappings of the two split outputs where the encoder
/// draws the text; the caller's preview arguments alone otherwise.
pub open spec fn preview_block(config: ConfigView) -> Seq<Seq<char>> {
    if !config.preview {
        Seq::empty()
    } else if draws_text(config) {
        map_block("[v_out1]"@) + config.preview_cmd + map_block("[v_out2]"@)
    } else {
        config.preview_cmd
    }
}

/// The whole argument list.
pub open spec fn encoder_command(
    config: ConfigView,
    log_format: Seq<char>,
    drawtext: Seq<char>,
) -> Seq<Seq<char>> {
    base_block(log_format) + filter_block(config, drawtext) + preview_block(config)
        + config.output_cmd
}

/// Whether the caller has to generate the overlay's filter fragment for this
/// configuration.
pub fn needs_drawtext(config: &GlobalConfig) -> (needed: bool)
    ensures
        needed == draws_text(config@),
{
    config.text.add_text && !config.text.over_pre
}

/// The filter graph around the overlay fragment `drawtext`.
pub fn build_filter(drawtext: &str, preview: bool) -> (filter: String)
    ensures
        filter@ == filter_graph(drawtext@, preview),
{
    let mut filter = String::from_str("[0:v]null,");
    filter.append(drawtext);
    if preview {
        filter.append(",split=2[v_out1][v_out2]");
    }
    filter
}

/// Prepares the encoder's argument list for streaming output.
///
/// `drawtext` is the overlay's filter fragment, generated for the placeholder
/// item; it is read only where `needs_drawtext` holds. The settings are left
/// as they are, so every build starts from the same fragments.
pub fn output(config: &GlobalConfig, log_format: &str, drawtext: &str) -> (cmd: Vec<String>)
    ensures
        args(cmd@) == encoder_command(config@, log_format@, drawtext@),
{
    let mut cmd: Vec<String> = Vec::new();
    assert(args(cmd@) =~= Seq::empty());
    push_arg(&mut cmd, "-hide_banner");
    push_arg(&mut cmd, "-nostats");
    push_arg(&mut cmd, "-v");
    push_arg(&mut cmd, log_format);
    push_arg(&mut cmd, "-re");
    push_arg(&mut cmd, "-i");
    push_arg(&mut cmd, "pipe:0");
    assert(args(cmd@) =~= base_block(log_format@));

    let ghost base = args(cmd@);
    if needs_drawtext(config) {
        let filter = build_filter(drawtext, config.out.preview);
        push_arg(&mut cmd, "-filter_complex");
        push_arg(&mut cmd, filter.as_str());
        assert(args(cmd@) =~= base + filter_block(config@, drawtext@));

        if config.out.preview {
            let ghost head = args(cmd@);
            push_arg(&mut cmd, "-map");
            push_arg(&mut cmd, "[v_out1]");
            push_arg(&mut cmd, "-map");
            push_arg(&mut cmd, "0:a");
            extend_args(&mut cmd, &config.out.preview_cmd);
            push_arg(&mut cmd, "-map");
            push_arg(&mut cmd, "[v_out2]");
            push_arg(&mut cmd, "-map");
            push_arg(&mut cmd, "0:a");
            assert(args(cmd@) =~= head + preview_block(config@));
        }
    } else if config.out.preview {
        extend_args(&mut cmd, &config.out.preview_cmd);
    }
    assert(args(cmd@) =~= base + filter_block(config@, drawtext@) + preview_block(config@));
    extend_args(&mut cmd, &config.out.output_cmd);
    cmd
}

/// Whether the caller's own inputs are free of the filter option, so that
/// only the builder can have put it into a command.
pub open spec fn free_of_filter_option(config: ConfigView, log_format: Seq<char>) -> bool {
    &&& log_format != "-filter_complex"@
    &&& !config.preview_cmd.contains("-filter_complex"@)
    &&& !config.output_cmd.contains("-filter_complex"@)
}

/// The builder is deterministic: two argument lists built from settings with
/// the same view, the same log level and the same overlay fragment are equal,
/// argument by argument.
pub proof fn lemma_output_deterministic(
    first: Seq<String>,
    second: Seq<String>,
    a: GlobalConfig,
    b: GlobalConfig,
    log_format: Seq<char>,
    drawtext: Seq<char>,
)
    requires
        a@ == b@,
        args(first) == encoder_command(a@, log_format, drawtext),
        args(second) == encoder_command(b@, log_format, drawtext),
    ensures
        first.len() == second.len(),
        forall|i: int| 0 <= i < first.len() ==> first[i]@ == second[i]@,
{
    assert(args(first).len() == first.len());
    assert(args(second).len() == second.len());
    assert forall|i: int| 0 <= i < first.len() implies first[i]@ == second[i]@ by {
        assert(args(first)[i] == first[i]@);
        assert(args(second)[i] == second[i]@);
    }
}

/// Where the encoder does not draw the text, the overlay fragment has no
/// influence on the command.
pub proof fn lemma_drawtext_unused(
    config: ConfigView,
    log_format: Seq<char>,
    one: Seq<char>,
    other: Seq<char>,
)
    requires
        !draws_text(config),
    ensures
        encoder_command(config, log_format, one) == encoder_command(config, log_format, other),
{
}

/// The builder puts the filter option into a command exactly once where the
/// encoder draws the text, directly behind the base block, and never
/// otherwise: with inputs that are free of it, it occurs at that place and
/// nowhere else.
pub proof fn lemma_filter_option_place(
    config: ConfigView,
    log_format: Seq<char>,
    drawtext: Seq<char>,
)
    requires
        free_of_filter_option(config, log_format),
    ensures
        forall|i: int|
            0 <= i < encoder_command(config, log_format, drawtext).len() ==> (
            encoder_command(config, log_format, drawtext)[i] == "-filter_complex"@ <==> draws_text(
                config,
            ) && i == 7),
{
    let flag = "-filter_complex"@;
    let cmd = encoder_command(config, log_format, drawtext);
    let base = base_block(log_format);
    let filter = filter_block(config, drawtext);
    let preview = preview_block(config);
    reveal_strlit("-filter_complex");
    reveal_strlit("-hide_banner");
    reveal_strlit("-nostats");
    reveal_strlit("-v");
    reveal_strlit("-re");
    reveal_strlit("-i");
    reveal_strlit("pipe:0");
    reveal_strlit("-map");
    reveal_strlit("0:a");
    reveal_strlit("[v_out1]");
    reveal_strlit("[v_out2]");
    reveal_strlit("[0:v]null,");
    reveal_strlit(",split=2[v_out1][v_out2]");
    assert(flag.len() == 15);
    assert forall|i: int| 0 <= i < base.len() implies base[i] != flag by {
        assert(base[i].len() != 15 || base[i] == log_format);
    }
    assert(filter_graph(drawtext, config.preview) != flag) by {
        assert("[0:v]null,"@[0] == '[');
        assert(filter_graph(drawtext, config.preview)[0] == '[');
        assert(flag[0] == '-');
    }
    assert forall|i: int| 0 <= i < preview.len() implies preview[i] != flag by {
        if config.preview && draws_text(config) {
            let first = map_block("[v_out1]"@);
            let last = map_block("[v_out2]"@);
            let n = config.preview_cmd.len();
            if i < 4 {
                assert(preview[i] == first[i]);
                assert(first[i].len() != 15);
            } else if i < 4 + n {
                assert(preview[i] == config.preview_cmd[i - 4]);
            } else {
                assert(preview[i] == last[i - 4 - n]);
                assert(last[i - 4 - n].len() != 15);
            }
        } else if config.preview {
            assert(preview[i] == config.preview_cmd[i]);
        }
    }
    assert forall|i: int| 0 <= i < cmd.len() implies (cmd[i] == flag <==> draws_text(config) && i
        == 7) by {
        let f = filter.len();
        let p = preview.len();
        if i < 7 {
            assert(cmd[i] == base[i]);
        } else if i < 7 + f {
            assert(cmd[i] == filter[i - 7]);
        } else if i < 7 + f + p {
            assert(cmd[i] == preview[i - 7 - f]);
        } else {
            assert(cmd[i] == config.output_cmd[i - 7 - f - p]);
        }
    }
}

/// With an overlay drawn by the encoder and a preview, the command is the base
/// block, the filter option with a graph that ends in a split into two
/// distinctly labelled outputs, the mapping of the first label and the
/// input's audio, the caller's preview arguments, the mapping of the second
/// label and the input's audio, and the caller's output arguments. With
/// inputs that are free of the filter option, it occurs exactly once.
pub proof fn lemma_overlay_with_preview(
    config: ConfigView,
    log_format: Seq<char>,
    drawtext: Seq<char>,
)
    requires
        config.add_text,
        !config.over_pre,
        config.preview,
    ensures
        encoder_command(config, log_format, drawtext) == base_block(log_format)
            + seq!["-filter_complex"@, "[0:v]null,"@ + drawtext + ",split=2[v_out1][v_out2]"@]
            + (seq!["-map"@, "[v_out1]"@, "-map"@, "0:a"@] + config.preview_cmd
            + seq!["-map"@, "[v_out2]"@, "-map"@, "0:a"@]) + config.output_cmd,
        encoder_command(config, log_format, drawtext)[7] == "-filter_complex"@,
        encoder_command(config, log_format, drawtext)[8] == filter_graph(drawtext, true),
        "[v_out1]"@ != "[v_out2]"@,
        free_of_filter_option(config, log_format) ==> forall|i: int|
            0 <= i < encoder_command(config, log_format, drawtext).len() ==> (encoder_command(
                config,
                log_format,
                drawtext,
            )[i] == "-filter_complex"@ <==> i == 7),
{
    if free_of_filter_option(config, log_format) {
        lemma_filter_option_place(config, log_format, drawtext);
    }
    reveal_strlit("[v_out1]");
    reveal_strlit("[v_out2]");
    assert("[v_out1]"@[6] != "[v_out2]"@[6]);
    let cmd = encoder_command(config, log_format, drawtext);
    let base = base_block(log_format);
    let filter = filter_block(config, drawtext);
    assert(cmd[7] == filter[0]);
    assert(cmd[8] == filter[1]);
}

/// Without an overlay but with a preview, the builder adds no filter block,
/// and the preview block is the caller's preview arguments unchanged: the
/// command is the base block, those arguments and the output arguments.
pub proof fn lemma_preview_only(config: ConfigView, log_format: Seq<char>, drawtext: Seq<char>)
    requires
        !config.add_text,
        config.preview,
    ensures
        filter_block(config, drawtext).len() == 0,
        preview_block(config) == config.preview_cmd,
        encoder_command(config, log_format, drawtext) == base_block(log_format)
            + config.preview_cmd + config.output_cmd,
        free_of_filter_option(config, log_format) ==> !encoder_command(
            config,
            log_format,
            drawtext,
        ).contains("-filter_complex"@),
{
    assert(base_block(log_format) + filter_block(config, drawtext) =~= base_block(log_format));
    if free_of_filter_option(config, log_format) {
        lemma_filter_option_place(config, log_format, drawtext);
    }
}

/// With neither overlay nor preview, the command is the base block followed
/// by the caller's output arguments, and nothing else.
pub proof fn lemma_plain_output(config: ConfigView, log_format: Seq<char>, drawtext: Seq<char>)
    requires
        !config.add_text,
        !config.preview,
    ensures
        encoder_command(config, log_format, drawtext) == base_block(log_format)
            + config.output_cmd,
{
    assert(base_block(log_format) + filter_block(config, drawtext) + preview_block(config)
        =~= base_block(log_format));
}

} // verus!
