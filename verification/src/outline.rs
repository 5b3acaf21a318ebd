use vstd::prelude::*;

verus! {

/// All points of the line strings, one line string after the other.
pub open spec fn flatten_points<P>(strings: Seq<Vec<P>>) -> Seq<P>
    decreases strings.len(),
{
    if strings.len() == 0 {
        Seq::empty()
    } else {
        flatten_points(strings.drop_last()) + strings.last()@
    }
}

/// The number of points of each line string.
pub open spec fn point_counts<P>(strings: Seq<Vec<P>>) -> Seq<nat> {
    Seq::new(strings.len(), |j: int| strings[j]@.len())
}

/// The sum of the counts.
pub open spec fn total(counts: Seq<nat>) -> nat
    decreases counts.len(),
{
    if counts.len() == 0 {
        0
    } else {
        total(counts.drop_last()) + counts.last()
    }
}

/// The closed loop through the `count` consecutive points that start at `first`:
/// each point is joined to the next one, and the last point back to the first.
pub open spec fn loop_segments(first: int, count: nat) -> Seq<(int, int)> {
    Seq::new(count, |k: int| (first + k, if k == count - 1 { first } else { first + k + 1 }))
}

/// The segments of a mesh made of closed line strings whose point counts are `counts`,
/// when the points of all line strings stand one after the other.
pub open spec fn outline_segments(counts: Seq<nat>) -> Seq<(int, int)>
    decreases counts.len(),
{
    if counts.len() == 0 {
        Seq::empty()
    } else {
        outline_segments(counts.drop_last()) + loop_segments(
            total(counts.drop_last()) as int,
            counts.last(),
        )
    }
}

/// The closed polygon through `n` points: point `k` is joined to point `(k + 1) % n`.
pub open spec fn polygon_segments(n: nat) -> Seq<(int, int)> {
    Seq::new(n, |k: int| (k, (k + 1) % (n as int)))
}

/// `segments` holds the index pairs `pairs`, each index converted to `u32` as `as` does.
pub open spec fn encodes(segments: Seq<[u32; 2]>, pairs: Seq<(int, int)>) -> bool {
    &&& segments.len() == pairs.len()
    &&& forall|k: int|
        #![trigger segments[k]]
        0 <= k < pairs.len() ==> segments[k][0] == pairs[k].0 as u32 && segments[k][1]
            == pairs[k].1 as u32
}

proof fn lemma_flatten_len<P>(strings: Seq<Vec<P>>)
    ensures
        flatten_points(strings).len() == total(point_counts(strings)),
    decreases strings.len(),
{
    if strings.len() > 0 {
        lemma_flatten_len(strings.drop_last());
        assert(point_counts(strings).drop_last() =~= point_counts(strings.drop_last()));
    }
}

proof fn lemma_counts_push<P>(strings: Seq<Vec<P>>, j: int)
    requires
        0 <= j < strings.len(),
    ensures
        point_counts(strings.take(j + 1)).drop_last() == point_counts(strings.take(j)),
        point_counts(strings.take(j + 1)).last() == strings[j]@.len(),
        point_counts(strings.take(j + 1)).len() > 0,
        strings.take(j + 1).drop_last() == strings.take(j),
        strings.take(j + 1).last() == strings[j],
{
    assert(point_counts(strings.take(j + 1)).drop_last() =~= point_counts(strings.take(j)));
    assert(strings.take(j + 1).drop_last() =~= strings.take(j));
}

/// Joins the points of the line strings of a contour into one mesh: the points of
/// every line string, one line string after the other, and for every line string
/// the index pairs of a closed loop through its points.
pub fn outline_mesh<P: Copy>(line_strings: &Vec<Vec<P>>) -> (mesh: (Vec<P>, Vec<[u32; 2]>))
    ensures
        mesh.0@ == flatten_points(line_strings@),
        encodes(mesh.1@, outline_segments(point_counts(line_strings@))),
{
    let mut points: Vec<P> = Vec::new();
    let mut indices: Vec<[u32; 2]> = Vec::new();
    let mut j: usize = 0;
    while j < line_strings.len()
        invariant
            j <= line_strings@.len(),
            points@ == flatten_points(line_strings@.take(j as int)),
            encodes(indices@, outline_segments(point_counts(line_strings@.take(j as int)))),
        decreases line_strings@.len() - j,
    {
        let line_string = &line_strings[j];
        let ghost strings = line_strings@;
        let ghost before = points@;
        let ghost pairs_before = outline_segments(point_counts(strings.take(j as int)));
        let first: usize = points.len();
        let mut k: usize = 0;
        while k < line_string.len()
            invariant
                k <= line_string@.len(),
                points@ == before + line_string@.take(k as int),
            decreases line_string@.len() - k,
        {
            points.push(line_string[k]);
            proof {
                assert(line_string@.take(k + 1) =~= line_string@.take(k as int).push(
                    line_string@[k as int],
                ));
            }
            k = k + 1;
        }
        proof {
            assert(line_string@.take(k as int) =~= line_string@);
            lemma_counts_push(strings, j as int);
            lemma_flatten_len(strings.take(j as int));
        }
        let end: usize = points.len();
        let ghost count: nat = line_string@.len();
        let ghost lp = loop_segments(first as int, count);
        let mut i: usize = first;
        while i < end
            invariant
                first <= i <= end,
                end == first + count,
                lp == loop_segments(first as int, count),
                encodes(indices@, pairs_before + lp.take(i - first)),
            decreases end - i,
        {
            let ghost old_indices = indices@;
            if i == end - 1 {
                indices.push([i as u32, first as u32]);
            } else {
                indices.push([i as u32, (i + 1) as u32]);
            }
            proof {
                assert((pairs_before + lp.take(i + 1 - first)) =~= (pairs_before + lp.take(
                    i - first,
                )).push(lp[i - first]));
                let pairs = pairs_before + lp.take(i + 1 - first);
                assert forall|m: int| 0 <= m < pairs.len() implies #[trigger] indices@[m][0]
                    == pairs[m].0 as u32 && indices@[m][1] == pairs[m].1 as u32 by {
                    if m < old_indices.len() {
                        assert(indices@[m] == old_indices[m]);
                    }
                }
            }
            i = i + 1;
        }
        proof {
            assert(lp.take(i - first) =~= lp);
            assert(points@ == flatten_points(strings.take(j + 1)));
        }
        j = j + 1;
    }
    proof {
        assert(line_strings@.take(j as int) =~= line_strings@);
    }
    (points, indices)
}

/// The index pairs of the closed polygon through `vertex_count` points, in the
/// order in which the points were placed.
pub fn polygon_outline(vertex_count: usize) -> (segments: Vec<[u32; 2]>)
    ensures
        encodes(segments@, polygon_segments(vertex_count as nat)),
{
    let mut segments: Vec<[u32; 2]> = Vec::new();
    let mut i: usize = 0;
    while i < vertex_count
        invariant
            i <= vertex_count,
            encodes(segments@, polygon_segments(vertex_count as nat).take(i as int)),
        decreases vertex_count - i,
    {
        let ghost old_segments = segments@;
        let a: u32 = i as u32;
        let b: u32 = ((i + 1) % vertex_count) as u32;
        segments.push([a, b]);
        proof {
            let pairs = polygon_segments(vertex_count as nat).take(i + 1);
            assert forall|m: int| 0 <= m < pairs.len() implies #[trigger] segments@[m][0]
                == pairs[m].0 as u32 && segments@[m][1] == pairs[m].1 as u32 by {
                if m < old_segments.len() {
                    assert(segments@[m] == old_segments[m]);
                }
            }
        }
        i = i + 1;
    }
    proof {
        assert(polygon_segments(vertex_count as nat).take(i as int) =~= polygon_segments(
            vertex_count as nat,
        ));
    }
    segments
}

/// A polygon drawn point by point is the same closed loop as a contour made of one
/// line string with as many points: `polygon_outline` and `outline_mesh` join the
/// points alike.
pub proof fn lemma_polygon_is_single_loop(n: nat)
    ensures
        polygon_segments(n) == outline_segments(seq![n]),
{
    assert(seq![n].drop_last() =~= Seq::<nat>::empty());
    assert(outline_segments(Seq::<nat>::empty()) =~= Seq::<(int, int)>::empty());
    assert forall|k: int| 0 <= k < n implies #[trigger] polygon_segments(n)[k] == loop_segments(0, n)[k] by {
        if k + 1 < n {
            vstd::arithmetic::div_mod::lemma_small_mod((k + 1) as nat, n);
        } else {
            vstd::arithmetic::div_mod::lemma_mod_self_0(n as int);
        }
    }
    assert(polygon_segments(n) =~= outline_segments(seq![n]));
}

/// Every point of a contour mesh starts exactly one segment, the one at its own
/// position, and every segment joins two points of the mesh.
pub proof fn lemma_outline_segments_cover_points(counts: Seq<nat>)
    ensures
        outline_segments(counts).len() == total(counts),
        forall|k: int|
            0 <= k < total(counts) ==> #[trigger] outline_segments(counts)[k].0 == k && 0
                <= outline_segments(counts)[k].1 < total(counts),
    decreases counts.len(),
{
    if counts.len() > 0 {
        let rest = counts.drop_last();
        lemma_outline_segments_cover_points(rest);
        let segs = outline_segments(counts);
        assert forall|k: int| 0 <= k < total(counts) implies #[trigger] segs[k].0 == k && 0 <= segs[k].1
            < total(counts) by {
            if k < total(rest) {
                assert(segs[k] == outline_segments(rest)[k]);
            } else {
                assert(segs[k] == loop_segments(total(rest) as int, counts.last())[k - total(rest)]);
            }
        }
    }
}

proof fn lemma_take_drop_last(counts: Seq<nat>, j: int)
    requires
        0 <= j < counts.len(),
    ensures
        counts.drop_last().take(j) == counts.take(j),
        counts.take(counts.len() - 1) == counts.drop_last(),
{
    assert(counts.drop_last().take(j) =~= counts.take(j));
    assert(counts.take(counts.len() - 1) =~= counts.drop_last());
}

/// The segments of a contour mesh go ring by ring: line string `j` owns the
/// positions from `f`, the number of points of the earlier line strings, to
/// `f + counts[j]`; each of its points is joined to the next point of the same line
/// string, and its last point back to its own first point at `f`.
pub proof fn lemma_outline_rings(counts: Seq<nat>, j: int, m: int)
    requires
        0 <= j < counts.len(),
        0 <= m < counts[j],
    ensures
        total(counts.take(j)) + counts[j] <= total(counts),
        outline_segments(counts)[total(counts.take(j)) + m].0 == total(counts.take(j)) + m,
        m < counts[j] - 1 ==> outline_segments(counts)[total(counts.take(j)) + m].1 == total(
            counts.take(j),
        ) + m + 1,
        m == counts[j] - 1 ==> outline_segments(counts)[total(counts.take(j)) + m].1 == total(
            counts.take(j),
        ),
    decreases counts.len(),
{
    let rest = counts.drop_last();
    lemma_take_drop_last(counts, j);
    lemma_outline_segments_cover_points(rest);
    if j < counts.len() - 1 {
        lemma_outline_rings(rest, j, m);
        assert(rest[j] == counts[j]);
    }
}

/// Points of a contour mesh stand ring by ring: point `m` of line string `j` is at
/// position `f + m`, where `f` is the number of points of the earlier line strings.
pub proof fn lemma_flatten_rings<P>(strings: Seq<Vec<P>>, j: int, m: int)
    requires
        0 <= j < strings.len(),
        0 <= m < strings[j]@.len(),
    ensures
        total(point_counts(strings).take(j)) + m < flatten_points(strings).len(),
        flatten_points(strings)[total(point_counts(strings).take(j)) + m] == strings[j]@[m],
    decreases strings.len(),
{
    let rest = strings.drop_last();
    lemma_flatten_len(rest);
    lemma_flatten_len(strings);
    assert(point_counts(strings).drop_last() =~= point_counts(rest));
    lemma_take_drop_last(point_counts(strings), j);
    if j < strings.len() - 1 {
        lemma_flatten_rings(rest, j, m);
        assert(point_counts(rest).take(j) == point_counts(strings).take(j));
        lemma_outline_total_prefix(point_counts(rest), j);
    } else {
        assert(point_counts(strings).take(j) == point_counts(rest));
    }
}

proof fn lemma_outline_total_prefix(counts: Seq<nat>, j: int)
    requires
        0 <= j < counts.len(),
    ensures
        total(counts.take(j)) + counts[j] <= total(counts),
    decreases counts.len(),
{
    let rest = counts.drop_last();
    lemma_take_drop_last(counts, j);
    if j < counts.len() - 1 {
        lemma_outline_total_prefix(rest, j);
    }
}

/// The polygon through `n` points joins each point to the next one in the order
/// of placement, and the last point back to the first one.
pub proof fn lemma_polygon_ring(n: nat, k: int)
    requires
        0 <= k < n,
    ensures
        polygon_segments(n).len() == n,
        polygon_segments(n)[k].0 == k,
        k < n - 1 ==> polygon_segments(n)[k].1 == k + 1,
        k == n - 1 ==> polygon_segments(n)[k].1 == 0,
{
    if k + 1 < n {
        vstd::arithmetic::div_mod::lemma_small_mod((k + 1) as nat, n);
    } else {
        vstd::arithmetic::div_mod::lemma_mod_self_0(n as int);
    }
}

} // verus!
