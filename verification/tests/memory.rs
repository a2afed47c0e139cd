use lib::memory::Page;

#[test]
fn page_geometry() {
    assert_eq!(Page::SIZE, 4096);
    assert_eq!(Page::SIZE, 1usize << Page::OFFSET_BITS);
    assert_eq!(Page::OFFSET_MASK, Page::SIZE - 1);
    for addr in [0usize, 1, 0xfff, 0x1000, 0x1234_5678, usize::MAX] {
        assert_eq!(addr & Page::OFFSET_MASK, addr % Page::SIZE);
    }
}
