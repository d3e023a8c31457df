use vstd::prelude::*;
use crate::commands::{BufferRange, RenderCommand};
use crate::inline_pass::{
    bind_group_commands, draw_setup_commands, groups_or_none, inline_draw, inline_draw_indexed,
    inline_index_buffer, vertex_buffer_commands,
};
use crate::tokens::{parse_index_format_lenient, parse_texture_format, texture_format_of, TextureFormat};

verus! {

/// A render bundle to record: the formats of the targets it draws into, and
/// its commands in order.
#[derive(Debug)]
pub struct RenderBundlePlan {
    pub color_formats: Vec<TextureFormat>,
    pub commands: Vec<RenderCommand>,
}

/// Reads each colour format token in order (unknown tokens mean `rgba8unorm`).
pub fn bundle_color_formats(color_formats: &Vec<String>) -> (r: Vec<TextureFormat>)
    ensures
        r@ == color_formats@.map_values(|s: String| texture_format_of(s@)),
{
    let mut out: Vec<TextureFormat> = Vec::new();
    let mut i: usize = 0;
    while i < color_formats.len()
        invariant
            i <= color_formats@.len(),
            out@ == color_formats@.take(i as int).map_values(|s: String| texture_format_of(s@)),
        decreases color_formats@.len() - i,
    {
        out.push(parse_texture_format(color_formats[i].as_str()));
        assert(color_formats@.take(i + 1) =~= color_formats@.take(i as int).push(color_formats@[i as int]));
        assert(out@ =~= color_formats@.take(i + 1).map_values(|s: String| texture_format_of(s@)));
        i = i + 1;
    }
    assert(color_formats@.take(i as int) =~= color_formats@);
    out
}

fn push_draw_setup(commands: &mut Vec<RenderCommand>, pipeline: u64, groups: &Vec<u64>, buffers: &Vec<u64>)
    requires
        old(commands)@.len() == 0,
    ensures
        final(commands)@ == draw_setup_commands(pipeline, groups@, buffers@),
{
    commands.push(RenderCommand::SetPipeline { pipeline });
    let mut i: usize = 0;
    while i < groups.len()
        invariant
            i <= groups@.len(),
            commands@ == seq![RenderCommand::SetPipeline { pipeline }] + bind_group_commands(groups@).take(i as int),
        decreases groups@.len() - i,
    {
        commands.push(RenderCommand::SetBindGroup { index: i as u32, group: groups[i], offsets: None });
        assert(commands@ =~= seq![RenderCommand::SetPipeline { pipeline }] + bind_group_commands(groups@).take(i + 1));
        i = i + 1;
    }
    assert(bind_group_commands(groups@).take(i as int) =~= bind_group_commands(groups@));
    let ghost mid = commands@;
    let mut k: usize = 0;
    while k < buffers.len()
        invariant
            k <= buffers@.len(),
            commands@ == mid + vertex_buffer_commands(buffers@).take(k as int),
        decreases buffers@.len() - k,
    {
        commands.push(
            RenderCommand::SetVertexBuffer {
                slot: k as u32,
                buffer: buffers[k],
                range: BufferRange { offset: 0, size: None },
            },
        );
        assert(commands@ =~= mid + vertex_buffer_commands(buffers@).take(k + 1));
        k = k + 1;
    }
    assert(vertex_buffer_commands(buffers@).take(k as int) =~= vertex_buffer_commands(buffers@));
    assert(commands@ =~= draw_setup_commands(pipeline, groups@, buffers@));
}

fn groups_or_empty(groups: Option<Vec<u64>>) -> (g: Vec<u64>)
    ensures
        g@ == groups_or_none(groups),
{
    match groups {
        Some(g) => g,
        None => Vec::new(),
    }
}

/// A bundle that sets the pipeline, the bind groups and the vertex buffers,
/// each at its list index, and draws `vertex_count` vertices once.
pub fn render_bundle(
    pipeline: u64,
    vertex_buffers: &Vec<u64>,
    vertex_count: u32,
    bind_groups: Option<Vec<u64>>,
    color_formats: &Vec<String>,
) -> (r: RenderBundlePlan)
    ensures
        r.color_formats@ == color_formats@.map_values(|s: String| texture_format_of(s@)),
        r.commands@ == draw_setup_commands(pipeline, groups_or_none(bind_groups), vertex_buffers@).push(
            inline_draw(vertex_count),
        ),
{
    let formats = bundle_color_formats(color_formats);
    let groups = groups_or_empty(bind_groups);
    let mut commands: Vec<RenderCommand> = Vec::new();
    push_draw_setup(&mut commands, pipeline, &groups, vertex_buffers);
    commands.push(
        RenderCommand::Draw { vertex_count, instance_count: 1, first_vertex: 0, first_instance: 0 },
    );
    RenderBundlePlan { color_formats: formats, commands }
}

/// As `render_bundle`, with the index buffer bound whole (`uint16` unless
/// the token names `uint32`) and `index_count` indices drawn once.
pub fn render_bundle_indexed(
    pipeline: u64,
    vertex_buffers: &Vec<u64>,
    index_buffer: u64,
    index_format: &str,
    index_count: u32,
    bind_groups: Option<Vec<u64>>,
    color_formats: &Vec<String>,
) -> (r: RenderBundlePlan)
    ensures
        r.color_formats@ == color_formats@.map_values(|s: String| texture_format_of(s@)),
        r.commands@ == draw_setup_commands(pipeline, groups_or_none(bind_groups), vertex_buffers@).push(
            inline_index_buffer(index_buffer, index_format@),
        ).push(inline_draw_indexed(index_count)),
{
    let formats = bundle_color_formats(color_formats);
    let groups = groups_or_empty(bind_groups);
    let mut commands: Vec<RenderCommand> = Vec::new();
    push_draw_setup(&mut commands, pipeline, &groups, vertex_buffers);
    let format = parse_index_format_lenient(index_format);
    commands.push(
        RenderCommand::SetIndexBuffer { buffer: index_buffer, format, range: BufferRange { offset: 0, size: None } },
    );
    commands.push(
        RenderCommand::DrawIndexed { index_count, instance_count: 1, first_index: 0, base_vertex: 0, first_instance: 0 },
    );
    RenderBundlePlan { color_formats: formats, commands }
}

} // verus!
