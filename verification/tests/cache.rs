use zcore::cache::{
    flush_cache, flush_dcache_range, invalidate_dcache, invalidate_dcache_range, CacheAction,
    DcacheMaintenance, DcacheOp,
};

fn drain(mut m: DcacheMaintenance) -> Vec<CacheAction> {
    let mut out = Vec::new();
    while let Some(a) = m.next_action() {
        out.push(a);
    }
    // A finished walk keeps answering `None`.
    assert_eq!(m.next_action(), None);
    out
}

#[test]
fn flush_cache_walks_lines_then_barrier() {
    let actions = drain(flush_cache(0x1005, 0x80));
    let op = DcacheOp::CleanInvalidate;
    assert_eq!(
        actions,
        vec![
            CacheAction::Line(op, 0x1000),
            CacheAction::Line(op, 0x1040),
            CacheAction::Line(op, 0x1080),
            CacheAction::Barrier
        ]
    );
}

#[test]
fn invalidate_dcache_uses_invalidate() {
    let actions = drain(invalidate_dcache(0x2000, 0x40));
    assert_eq!(actions, vec![CacheAction::Line(DcacheOp::Invalidate, 0x2000), CacheAction::Barrier]);
}

#[test]
fn aligned_empty_range_only_barrier() {
    assert_eq!(drain(flush_dcache_range(0x3000, 0x3000)), vec![CacheAction::Barrier]);
    assert_eq!(drain(invalidate_dcache(0x40, 0)), vec![CacheAction::Barrier]);
}

#[test]
fn unaligned_empty_range_touches_its_line() {
    assert_eq!(
        drain(flush_dcache_range(0x3001, 0x3001)),
        vec![CacheAction::Line(DcacheOp::CleanInvalidate, 0x3000), CacheAction::Barrier]
    );
}

#[test]
fn reversed_range_only_barrier() {
    assert_eq!(drain(invalidate_dcache_range(0x5000, 0x1000)), vec![CacheAction::Barrier]);
}

#[test]
fn range_at_top_of_address_space() {
    let end = u64::MAX - 63;
    let actions = drain(flush_dcache_range(end - 0x41, end));
    assert_eq!(
        actions,
        vec![
            CacheAction::Line(DcacheOp::CleanInvalidate, u64::MAX - 191),
            CacheAction::Line(DcacheOp::CleanInvalidate, u64::MAX - 127),
            CacheAction::Barrier
        ]
    );
}

#[test]
fn walked_lines_cover_every_address() {
    let (start, end) = (0x10_0013u64, 0x10_0517u64);
    let lines: Vec<u64> = drain(flush_dcache_range(start, end))
        .into_iter()
        .filter_map(|a| match a {
            CacheAction::Line(_, l) => Some(l),
            CacheAction::Barrier => None,
        })
        .collect();
    for a in start..end {
        assert!(lines.iter().any(|&l| l <= a && a < l + 64));
    }
    for w in lines.windows(2) {
        assert_eq!(w[1], w[0] + 64);
    }
    assert!(lines.iter().all(|l| l % 64 == 0));
    assert_eq!(lines.len(), (0x10_0540 - 0x10_0000) / 64);
}
