//! How the vertices and the indices of a frame lie in the two buffers that the device reads.

use imgui::{DrawIdx, DrawVert};
use vstd::prelude::*;

use crate::draw_data::{
    command_at, element_count, index_base, indices, list_places, places, vertex_base,
    vertices, DrawCmd, DrawData, DrawList, Place,
};
use crate::drawing::{
    commands_come_in_order, draw_call, draw_commands, drawing_calls, drawing_places,
    every_command_draws_its_count, is_place, lemma_drawing_place, lemma_element_count_le,
    lemma_places_before, lemma_sum_of_counts, places_before,
};
use crate::renderer::{Renderer, RendererView};

verus! {

/// Copies a slice into another one, beginning at the given position.
fn copy_at<T: Copy>(dst: &mut [T], at: usize, src: &[T])
    requires
        at + src@.len() <= old(dst)@.len(),
    ensures
        final(dst)@ == old(dst)@.take(at as int) + src@ + old(dst)@.skip(at + src@.len()),
{
    let room: usize = dst.len();
    let mut i: usize = 0;
    while i < src.len()
        invariant
            room == old(dst)@.len(),
            i <= src@.len(),
            at + src@.len() <= old(dst)@.len(),
            dst@ == old(dst)@.take(at as int) + src@.take(i as int) + old(dst)@.skip(at + i),
        decreases src@.len() - i,
    {
        dst[at + i] = src[i];
        i += 1;
    }
}

impl Renderer {
    /// Writes the vertices and the indices of all draw lists, one list after the other, to the
    /// beginning of the memory of the vertex buffer and of the index buffer.
    pub fn write_buffers(
        draw_data: &DrawData<'_>,
        vtx_dst: &mut [DrawVert],
        idx_dst: &mut [DrawIdx],
    )
        requires
            vertices(draw_data.draw_lists@).len() <= old(vtx_dst)@.len(),
            indices(draw_data.draw_lists@).len() <= old(idx_dst)@.len(),
        ensures
            final(vtx_dst)@ == vertices(draw_data.draw_lists@) + old(vtx_dst)@.skip(
                vertices(draw_data.draw_lists@).len() as int,
            ),
            final(idx_dst)@ == indices(draw_data.draw_lists@) + old(idx_dst)@.skip(
                indices(draw_data.draw_lists@).len() as int,
            ),
            final(vtx_dst)@.len() == old(vtx_dst)@.len(),
            final(idx_dst)@.len() == old(idx_dst)@.len(),
            forall|list: int, i: int|
                0 <= list < draw_data.draw_lists@.len() && 0 <= i
                    < draw_data.draw_lists@[list].vtx_buffer@.len()
                    ==> final(vtx_dst)@[vertex_base(draw_data.draw_lists@, list) + i]
                    == #[trigger] draw_data.draw_lists@[list].vtx_buffer@[i],
            forall|list: int, i: int|
                0 <= list < draw_data.draw_lists@.len() && 0 <= i
                    < draw_data.draw_lists@[list].idx_buffer@.len()
                    ==> final(idx_dst)@[index_base(draw_data.draw_lists@, list) + i]
                    == #[trigger] draw_data.draw_lists@[list].idx_buffer@[i],
    {
        let lists = &draw_data.draw_lists;
        let vtx_room: usize = vtx_dst.len();
        let idx_room: usize = idx_dst.len();
        let mut vtx_at: usize = 0;
        let mut idx_at: usize = 0;
        let mut l: usize = 0;
        assert(vtx_dst@.skip(0) =~= vtx_dst@);
        assert(idx_dst@.skip(0) =~= idx_dst@);
        while l < lists.len()
            invariant
                lists == &draw_data.draw_lists,
                l <= lists@.len(),
                vertices(lists@).len() <= old(vtx_dst)@.len(),
                indices(lists@).len() <= old(idx_dst)@.len(),
                vtx_at == vertex_base(lists@, l as int),
                idx_at == index_base(lists@, l as int),
                vtx_dst@ == vertices(lists@.take(l as int)) + old(vtx_dst)@.skip(vtx_at as int),
                idx_dst@ == indices(lists@.take(l as int)) + old(idx_dst)@.skip(idx_at as int),
                vtx_at <= vtx_room == old(vtx_dst)@.len(),
                idx_at <= idx_room == old(idx_dst)@.len(),
            decreases lists@.len() - l,
        {
            let list = &lists[l];
            proof {
                assert(lists@.take(l + 1).drop_last() =~= lists@.take(l as int));
                lemma_base_le(lists@, l + 1);
            }
            copy_at(vtx_dst, vtx_at, list.vtx_buffer);
            copy_at(idx_dst, idx_at, list.idx_buffer);
            vtx_at += list.vtx_buffer.len();
            idx_at += list.idx_buffer.len();
            l += 1;
            assert(vtx_dst@ =~= vertices(lists@.take(l as int)) + old(vtx_dst)@.skip(
                vtx_at as int,
            ));
            assert(idx_dst@ =~= indices(lists@.take(l as int)) + old(idx_dst)@.skip(
                idx_at as int,
            ));
        }
        assert(lists@.take(l as int) =~= lists@);
        proof {
            assert forall|list: int, i: int|
                0 <= list < lists@.len() && 0 <= i < lists@[list].vtx_buffer@.len()
                implies vtx_dst@[vertex_base(lists@, list) + i]
                == #[trigger] lists@[list].vtx_buffer@[i] by {
                lists_stand_together(lists@, list);
                let base = vertex_base(lists@, list) as int;
                let together = vertices(lists@).subrange(
                    base,
                    base + lists@[list].vtx_buffer@.len(),
                );
                assert(together[i] == vertices(lists@)[base + i]);
            }
            assert forall|list: int, i: int|
                0 <= list < lists@.len() && 0 <= i < lists@[list].idx_buffer@.len()
                implies idx_dst@[index_base(lists@, list) + i]
                == #[trigger] lists@[list].idx_buffer@[i] by {
                lists_stand_together(lists@, list);
                let base = index_base(lists@, list) as int;
                let together = indices(lists@).subrange(
                    base,
                    base + lists@[list].idx_buffer@.len(),
                );
                assert(together[i] == indices(lists@)[base + i]);
            }
        }
    }
}

/// What lies before a draw list is a part of the whole.
pub(crate) proof fn lemma_base_le(lists: Seq<DrawList<'_>>, list: int)
    requires
        0 <= list <= lists.len(),
    ensures
        vertex_base(lists, list) <= vertices(lists).len(),
        index_base(lists, list) <= indices(lists).len(),
    decreases lists.len(),
{
    if list == lists.len() {
        assert(lists.take(list) =~= lists);
    } else {
        lemma_base_le(lists.drop_last(), list);
        assert(lists.drop_last().take(list) =~= lists.take(list));
    }
}

/// The vertices and the indices of a draw list stand together, behind those of the lists before it.
pub proof fn lists_stand_together(lists: Seq<DrawList<'_>>, list: int)
    requires
        0 <= list < lists.len(),
    ensures
        vertex_base(lists, list) + lists[list].vtx_buffer@.len() <= vertices(lists).len(),
        index_base(lists, list) + lists[list].idx_buffer@.len() <= indices(lists).len(),
        vertices(lists).subrange(
            vertex_base(lists, list) as int,
            (vertex_base(lists, list) + lists[list].vtx_buffer@.len()) as int,
        ) == lists[list].vtx_buffer@,
        indices(lists).subrange(
            index_base(lists, list) as int,
            (index_base(lists, list) + lists[list].idx_buffer@.len()) as int,
        ) == lists[list].idx_buffer@,
    decreases lists.len(),
{
    let rest = lists.drop_last();
    let vtx = lists[list].vtx_buffer@;
    let idx = lists[list].idx_buffer@;
    let v = vertex_base(lists, list) as int;
    let i = index_base(lists, list) as int;
    if list == lists.len() - 1 {
        assert(lists.take(list) =~= rest);
    } else {
        lists_stand_together(rest, list);
        assert(rest.take(list) =~= lists.take(list));
        assert(vertices(rest).subrange(v, v + vtx.len()) =~= vertices(lists).subrange(
            v,
            v + vtx.len(),
        ));
        assert(indices(rest).subrange(i, i + idx.len()) =~= indices(lists).subrange(
            i,
            i + idx.len(),
        ));
    }
    assert(vertices(lists).subrange(v, v + vtx.len()) =~= vtx);
    assert(indices(lists).subrange(i, i + idx.len()) =~= idx);
}

/// The numbers of indices that two groups of commands draw add up.
proof fn lemma_element_count_add(
    lists: Seq<DrawList<'_>>,
    first: Seq<Place>,
    second: Seq<Place>,
)
    ensures
        element_count(lists, first + second) == element_count(lists, first) + element_count(
            lists,
            second,
        ),
    decreases second.len(),
{
    if second.len() == 0 {
        assert(first + second =~= first);
    } else {
        lemma_element_count_add(lists, first, second.drop_last());
        assert((first + second).drop_last() =~= first + second.drop_last());
    }
}

/// The sum of the counts of those of the commands that draw.
pub open spec fn counts_together(commands: Seq<DrawCmd>) -> nat
    decreases commands.len(),
{
    if commands.len() == 0 {
        0
    } else {
        let before = counts_together(commands.drop_last());
        match commands.last() {
            DrawCmd::Elements { count, .. } => before + count as nat,
            _ => before,
        }
    }
}

/// Whether the commands of each draw list draw its indices one after the other, and all of them: the
/// counts of all commands add up to the number of indices, and those of the commands before one that
/// draws add up to its index offset.
pub open spec fn draws_in_order(lists: Seq<DrawList<'_>>) -> bool {
    &&& forall|list: int|
        0 <= list < lists.len() ==> counts_together((#[trigger] lists[list]).commands@)
            == lists[list].idx_buffer@.len()
    &&& forall|place: Place|
        #![trigger lists[place.0].commands@[place.1]]
        0 <= place.0 < lists.len() && 0 <= place.1 < lists[place.0].commands@.len()
            && lists[place.0].commands@[place.1] is Elements
            ==> lists[place.0].commands@[place.1]->cmd_params.idx_offset == counts_together(
            lists[place.0].commands@.take(place.1),
        )
}

/// The first commands of a list draw as many indices as their counts add up to.
proof fn lemma_counts_together(lists: Seq<DrawList<'_>>, list: int, count: nat)
    requires
        0 <= list < lists.len(),
        count <= lists[list].commands@.len(),
    ensures
        element_count(lists, list_places(list, count)) == counts_together(
            lists[list].commands@.take(count as int),
        ),
    decreases count,
{
    let commands = lists[list].commands@;
    if count > 0 {
        lemma_counts_together(lists, list, (count - 1) as nat);
        assert(list_places(list, count).drop_last() =~= list_places(list, (count - 1) as nat));
        assert(commands.take(count as int).drop_last() =~= commands.take(count - 1));
    }
}

/// The commands of the lists before a list draw all indices of those lists.
proof fn lemma_index_base(lists: Seq<DrawList<'_>>, list: int)
    requires
        draws_in_order(lists),
        0 <= list <= lists.len(),
    ensures
        element_count(lists, places(lists.take(list))) == index_base(lists, list),
    decreases list,
{
    if list > 0 {
        lemma_index_base(lists, list - 1);
        let before = lists.take(list);
        assert(before.drop_last() =~= lists.take(list - 1));
        assert(before.last() == lists[list - 1]);
        lemma_counts_together(lists, list - 1, lists[list - 1].commands@.len());
        assert(lists[list - 1].commands@.take(lists[list - 1].commands@.len() as int)
            =~= lists[list - 1].commands@);
        lemma_element_count_add(
            lists,
            places(lists.take(list - 1)),
            list_places(list - 1, lists[list - 1].commands@.len()),
        );
    }
}

/// A command that draws reads its own indices and its own vertices: the index buffer has its
/// indices where the drawing begins to read, and the vertex buffer has the vertices that they name
/// behind the base vertex.
///
/// A vertex offset other than zero is not taken into account.
pub proof fn every_draw_reads_its_own_geometry(lists: Seq<DrawList<'_>>, place: Place)
    requires
        draws_in_order(lists),
        is_place(lists, place),
        command_at(lists, place) is Elements,
        command_at(lists, place)->cmd_params.vtx_offset == 0,
    ensures
        ({
            let list = lists[place.0];
            let count = list.commands@[place.1]->count;
            let params = list.commands@[place.1]->cmd_params;
            let done = places_before(lists, place.0, place.1 as nat);
            let start = element_count(lists, done) as int;
            let base = vertex_base(lists, place.0) as int;
            &&& start + count <= indices(lists).len()
            &&& params.idx_offset + count <= list.idx_buffer@.len()
            &&& forall|i: int|
                0 <= i < count ==> #[trigger] indices(lists)[start + i]
                    == list.idx_buffer@[params.idx_offset + i]
            &&& forall|v: int|
                0 <= v < list.vtx_buffer@.len() ==> #[trigger] vertices(lists)[base + v]
                    == list.vtx_buffer@[params.vtx_offset + v]
        }),
{
    let list = lists[place.0];
    let own = list_places(place.0, place.1 as nat);
    let next = list_places(place.0, (place.1 + 1) as nat);
    let every = list_places(place.0, list.commands@.len());
    let count = list.commands@[place.1]->count;
    let params = list.commands@[place.1]->cmd_params;
    let start = element_count(lists, places_before(lists, place.0, place.1 as nat)) as int;
    let base = vertex_base(lists, place.0) as int;
    let first = index_base(lists, place.0) as int;
    lemma_index_base(lists, place.0);
    lemma_element_count_add(lists, places(lists.take(place.0)), own);
    assert(next.drop_last() =~= own);
    assert(next.last() == place);
    assert(every.take(place.1 + 1) =~= next);
    lemma_element_count_le(lists, every, place.1 + 1);
    lists_stand_together(lists, place.0);
    lemma_counts_together(lists, place.0, list.commands@.len());
    lemma_counts_together(lists, place.0, place.1 as nat);
    assert(list.commands@.take(list.commands@.len() as int) =~= list.commands@);
    assert(element_count(lists, every) == list.idx_buffer@.len());
    assert(start == first + params.idx_offset);
    assert forall|i: int| 0 <= i < count implies #[trigger] indices(lists)[start + i]
        == list.idx_buffer@[params.idx_offset + i] by {
        let together = indices(lists).subrange(first, first + list.idx_buffer@.len());
        assert(together[params.idx_offset + i] == indices(lists)[start + i]);
    }
    assert forall|v: int| 0 <= v < list.vtx_buffer@.len() implies #[trigger] vertices(lists)[base
        + v] == list.vtx_buffer@[params.vtx_offset + v] by {
        let together = vertices(lists).subrange(base, base + list.vtx_buffer@.len());
        assert(together[v] == vertices(lists)[base + v]);
    }
}

/// Where the commands of each draw list draw its indices in order, all commands together draw as
/// many indices as there are.
pub proof fn drawing_in_order_draws_every_index(lists: Seq<DrawList<'_>>)
    requires
        draws_in_order(lists),
    ensures
        element_count(lists, places(lists)) == indices(lists).len(),
{
    lemma_index_base(lists, lists.len() as int);
    assert(lists.take(lists.len() as int) =~= lists);
}

/// The call that draws names the exact numbers of a command, where the number of all drawn indices
/// is a 32-bit number: how many indices it draws, how many the commands before it draw, and where
/// the vertices of its draw list begin in the vertex buffer.
pub proof fn draw_calls_are_exact(draw_data: DrawData<'_>, place: Place)
    requires
        draw_data.consistent(),
        element_count(draw_data.draw_lists@, places(draw_data.draw_lists@)) <= u32::MAX,
        is_place(draw_data.draw_lists@, place),
        command_at(draw_data.draw_lists@, place) is Elements,
    ensures
        ({
            let lists = draw_data.draw_lists@;
            let done = places_before(lists, place.0, place.1 as nat);
            let call = draw_call(lists, done, place);
            &&& call is DrawIndexed
            &&& call->index_count == lists[place.0].commands@[place.1]->count
            &&& call->start_index == element_count(lists, done)
            &&& call->base_vertex == vertex_base(lists, place.0)
        }),
{
    let lists = draw_data.draw_lists@;
    let done = places_before(lists, place.0, place.1 as nat);
    let next = places_before(lists, place.0, (place.1 + 1) as nat);
    lemma_base_le(lists, place.0);
    lemma_places_before(lists, place.0, (place.1 + 1) as nat);
    lemma_element_count_le(lists, places(lists), next.len() as int);
    assert(next.drop_last() =~= done);
    assert(next.last() == place);
}

/// The buffers begin with the first draw list, and each list begins where the one before it ends.
/// Nothing lies behind the last one.
pub proof fn lists_follow_each_other(lists: Seq<DrawList<'_>>, list: int)
    requires
        0 <= list < lists.len(),
    ensures
        vertex_base(lists, 0) == 0,
        index_base(lists, 0) == 0,
        vertex_base(lists, list + 1) == vertex_base(lists, list) + lists[list].vtx_buffer@.len(),
        index_base(lists, list + 1) == index_base(lists, list) + lists[list].idx_buffer@.len(),
        vertices(lists).len() == vertex_base(lists, lists.len() as int),
        indices(lists).len() == index_base(lists, lists.len() as int),
{
    assert(lists.take(0) =~= Seq::empty());
    assert(lists.take(list + 1).drop_last() =~= lists.take(list));
    assert(lists.take(lists.len() as int) =~= lists);
}

/// No draw lists have no vertices and no indices.
pub proof fn no_lists_have_no_geometry(lists: Seq<DrawList<'_>>)
    requires
        lists.len() == 0,
    ensures
        vertices(lists).len() == 0,
        indices(lists).len() == 0,
{
}

/// Each of the calls that draw reads the indices and the vertices of its own command: where the
/// commands of each list draw its indices in order, the index buffer has them where the call begins
/// to read, and as many as it reads; and behind its base vertex the vertex buffer has the vertices of
/// the list of the command.
///
/// A vertex offset other than zero is not taken into account.
pub proof fn every_call_reads_its_own_geometry(
    renderer: RendererView,
    draw_data: DrawData<'_>,
    k: int,
    i: int,
)
    requires
        draw_data.consistent(),
        draws_in_order(draw_data.draw_lists@),
        0 <= k <= places(draw_data.draw_lists@).len(),
        0 <= i < drawing_places(
            draw_data.draw_lists@,
            places(draw_data.draw_lists@).take(k),
        ).len(),
        ({
            let lists = draw_data.draw_lists@;
            let place = drawing_places(lists, places(lists).take(k))[i];
            lists[place.0].commands@[place.1]->cmd_params.vtx_offset == 0
        }),
    ensures
        ({
            let lists = draw_data.draw_lists@;
            let done = places(lists).take(k);
            let call = drawing_calls(
                draw_commands(renderer, draw_data.display_size, lists, done),
            )[i];
            let place = drawing_places(lists, done)[i];
            let list = lists[place.0];
            let count = list.commands@[place.1]->count;
            let idx_offset = list.commands@[place.1]->cmd_params.idx_offset;
            &&& call is DrawIndexed
            &&& call->index_count == count
            &&& idx_offset + count <= list.idx_buffer@.len()
            &&& call->start_index + count <= indices(lists).len()
            &&& forall|n: int|
                0 <= n < count ==> #[trigger] indices(lists)[call->start_index + n]
                    == list.idx_buffer@[idx_offset + n]
            &&& call->base_vertex + list.vtx_buffer@.len() <= vertices(lists).len()
            &&& forall|v: int|
                0 <= v < list.vtx_buffer@.len() ==> #[trigger] vertices(
                    lists,
                )[call->base_vertex + v] == list.vtx_buffer@[v]
        }),
{
    let lists = draw_data.draw_lists@;
    let all = places(lists);
    let done = all.take(k);
    let drawing = drawing_places(lists, done);
    let place = drawing[i];
    let m = lemma_drawing_place(lists, done, i);
    assert(done.take(m) =~= all.take(m));
    commands_come_in_order(lists);
    assert(all[m] == place);
    let before = places_before(lists, place.0, place.1 as nat);
    lemma_places_before(lists, place.0, place.1 as nat);
    lemma_places_before(lists, place.0, (place.1 + 1) as nat);
    let next = places_before(lists, place.0, (place.1 + 1) as nat);
    assert(next[before.len() as int] == place);
    assert(all[before.len() as int] == place);
    assert(m == before.len());
    lemma_sum_of_counts(lists, all.take(m));
    every_command_draws_its_count(renderer, draw_data.display_size, lists, done);
    every_draw_reads_its_own_geometry(lists, place);
    drawing_in_order_draws_every_index(lists);
    lists_stand_together(lists, place.0);
}

} // verus!
