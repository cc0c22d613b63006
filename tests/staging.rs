use render_harness::staging::{flush_offset, BufferUsage, StagedRecords, StagingError};

type Vertex = [f32; 6];

fn line(a: [f32; 3], b: [f32; 3], color: [f32; 3]) -> [Vertex; 2] {
    [
        [a[0], a[1], a[2], color[0], color[1], color[2]],
        [b[0], b[1], b[2], color[0], color[1], color[2]],
    ]
}

#[test]
fn six_vertices_fill_first_144_bytes() {
    let mut staged: StagedRecords<Vertex> = StagedRecords::with_capacity(64);
    let start = staged.len();
    let mut expected: Vec<Vertex> = Vec::new();
    for (i, color) in [[1.0, 0.0, 0.0], [0.0, 1.0, 0.0], [0.0, 0.0, 1.0]].iter().enumerate() {
        let mut end = [0.0f32; 3];
        end[i] = 0.5;
        for v in line([0.0, 0.0, 0.0], end, *color) {
            assert_eq!(staged.push(v), Ok(()));
            expected.push(v);
        }
    }
    assert_eq!(staged.len(), 6);
    assert_eq!(start, 0);
    assert_eq!(flush_offset::<Vertex>(start), 0);
    let pending = staged.pending(start);
    assert_eq!(pending, &expected[..]);
    let bytes: &[u8] = bytemuck::cast_slice(pending);
    assert_eq!(bytes.len(), 144);
    assert_eq!(bytes, bytemuck::cast_slice::<Vertex, u8>(&expected));
}

#[test]
fn clear_empties_and_next_session_starts_at_zero() {
    let mut staged: StagedRecords<[u32; 2]> = StagedRecords::with_capacity(4);
    assert_eq!(staged.push([1, 2]), Ok(()));
    assert_eq!(staged.push([3, 4]), Ok(()));
    staged.clear();
    assert_eq!(staged.len(), 0);
    let start = staged.len();
    assert_eq!(flush_offset::<[u32; 2]>(start), 0);
    assert_eq!(staged.push([5, 6]), Ok(()));
    assert_eq!(staged.pending(start), &[[5, 6]][..]);
}

#[test]
fn second_session_flushes_only_its_own_records() {
    let mut staged: StagedRecords<[u32; 1]> = StagedRecords::with_capacity(8);
    assert_eq!(staged.push([10]), Ok(()));
    assert_eq!(staged.push([11]), Ok(()));
    let start = staged.len();
    assert_eq!(staged.push([12]), Ok(()));
    assert_eq!(staged.push([13]), Ok(()));
    assert_eq!(staged.pending(start), &[[12], [13]][..]);
    assert_eq!(flush_offset::<[u32; 1]>(start), 8);
}

#[test]
fn push_past_capacity_is_rejected() {
    let mut staged: StagedRecords<u32> = StagedRecords::with_capacity(2);
    assert_eq!(staged.push(1), Ok(()));
    assert_eq!(staged.push(2), Ok(()));
    assert_eq!(staged.push(3), Err(StagingError::Full));
    assert_eq!(staged.len(), 2);
    assert_eq!(staged.pending(0), &[1, 2][..]);
}

#[test]
fn zero_capacity_takes_nothing() {
    let mut staged: StagedRecords<u32> = StagedRecords::with_capacity(0);
    assert_eq!(staged.len(), 0);
    assert_eq!(staged.push(7), Err(StagingError::Full));
    assert_eq!(staged.pending(0), &[] as &[u32]);
}

#[test]
fn flush_offset_is_index_times_record_size() {
    assert_eq!(flush_offset::<[f32; 6]>(6), 144);
    assert_eq!(flush_offset::<u64>(3), 24);
    assert_eq!(flush_offset::<[u8; 12]>(0), 0);
}

#[test]
fn usage_always_gains_copy_destination() {
    assert_eq!(BufferUsage::vertex().with_copy_dst().bits, 40);
    assert_eq!(BufferUsage::index().with_copy_dst().bits, 24);
    assert_eq!(BufferUsage::uniform().with_copy_dst().bits, 72);
    let already = BufferUsage { bits: 8 };
    assert_eq!(already.with_copy_dst(), already);
    assert_eq!(
        BufferUsage::vertex().with_copy_dst().bits,
        (wgpu::BufferUsages::VERTEX | wgpu::BufferUsages::COPY_DST).bits()
    );
}
