use caps::abi::{check_base, check_ret, empty_data, header, CapSet, CapUserData, CapsError, CAPS_V3};
use caps::base::{self, Action, Event, Operation, Reply};
use caps::capability::Capability;
use caps::caps_set::CapsHashSet;
use caps::words::{clear_all, mask, overwrite, pack, query, read_all};

/// A kernel holding one thread's capability words, counting the calls made.
struct FakeKernel {
    data: CapUserData,
    fetches: usize,
    stores: usize,
    fail_fetch: i64,
    fail_store: i64,
}

impl FakeKernel {
    fn new(data: CapUserData) -> FakeKernel {
        FakeKernel { data, fetches: 0, stores: 0, fail_fetch: 0, fail_store: 0 }
    }

    fn run(&mut self, start: (Operation, Action)) -> Result<Reply, CapsError> {
        let (mut op, mut act) = start;
        loop {
            act = match act {
                Action::Finish(r) => return r,
                Action::Fetch(h) => {
                    assert_eq!(h.version, CAPS_V3);
                    self.fetches += 1;
                    op.resume(Event::Fetched(self.fail_fetch, self.data))
                }
                Action::Store(h, d) => {
                    assert_eq!(h.version, CAPS_V3);
                    self.stores += 1;
                    if self.fail_store == 0 {
                        self.data = d;
                    }
                    op.resume(Event::Stored(self.fail_store))
                }
            };
        }
    }

    fn calls(&self) -> usize {
        self.fetches + self.stores
    }
}

fn cap(i: u8) -> Capability {
    Capability::new(i)
}

fn set_of(idx: &[u8]) -> CapsHashSet {
    let mut s = CapsHashSet::new();
    for i in idx {
        s.insert(cap(*i));
    }
    s
}

fn sample() -> CapUserData {
    CapUserData {
        effective_s0: 0b1010,
        permitted_s0: 0xffff_ffff,
        inheritable_s0: 0x100,
        effective_s1: 0x4,
        permitted_s1: 0xff,
        inheritable_s1: 0,
    }
}

fn present(r: Result<Reply, CapsError>) -> bool {
    match r {
        Ok(Reply::Present(b)) => b,
        _ => panic!("expected a query reply"),
    }
}

fn indices(r: Result<Reply, CapsError>) -> Vec<u8> {
    match r {
        Ok(Reply::Caps(v)) => {
            let mut out: Vec<u8> = v.as_slice().iter().map(|c| c.index()).collect();
            out.sort();
            out
        }
        _ => panic!("expected a read reply"),
    }
}

fn is_done(r: &Result<Reply, CapsError>) -> bool {
    matches!(r, Ok(Reply::Done))
}

const BASE: [CapSet; 3] = [CapSet::Effective, CapSet::Permitted, CapSet::Inheritable];

#[test]
fn bitmask_of_low_and_high_indices() {
    assert_eq!(cap(0).bitmask(), 1);
    assert_eq!(cap(5).bitmask(), 32);
    assert_eq!(cap(40).bitmask(), 1u64 << 40);
    assert_eq!(cap(63).bitmask(), 1u64 << 63);
    assert_eq!(cap(17).index(), 17);
}

#[test]
fn header_carries_version_three_and_thread() {
    let h = header(42);
    assert_eq!(h.version, 0x20080522);
    assert_eq!(h.pid, 42);
    assert_eq!(header(0).pid, 0);
}

#[test]
fn raw_return_value_decides_outcome() {
    assert_eq!(check_ret(0), Ok(()));
    assert_eq!(check_ret(-1), Err(CapsError::SyscallFailure(-1)));
    assert_eq!(check_ret(22), Err(CapsError::SyscallFailure(22)));
}

#[test]
fn only_three_sets_are_base() {
    for s in BASE {
        assert_eq!(check_base(s), Ok(()));
    }
    assert_eq!(check_base(CapSet::Bounding), Err(CapsError::UnsupportedSet));
    assert_eq!(check_base(CapSet::Ambient), Err(CapsError::UnsupportedSet));
}

#[test]
fn set_collection_insert_remove_contains() {
    let mut s = CapsHashSet::new();
    assert!(!s.contains(cap(3)));
    assert!(s.insert(cap(3)));
    assert!(!s.insert(cap(3)));
    assert!(s.insert(cap(60)));
    assert!(s.contains(cap(3)));
    assert_eq!(s.as_slice().len(), 2);
    assert!(s.remove(cap(3)));
    assert!(!s.remove(cap(3)));
    assert!(!s.contains(cap(3)));
    assert!(s.contains(cap(60)));
    assert_eq!(s.as_slice().len(), 1);
}

#[test]
fn mask_joins_high_and_low_words() {
    let d = sample();
    assert_eq!(mask(&d, CapSet::Effective), Ok((0x4u64 << 32) | 0b1010));
    assert_eq!(mask(&d, CapSet::Permitted), Ok(0xff_ffff_ffff));
    assert_eq!(mask(&d, CapSet::Inheritable), Ok(0x100));
    assert_eq!(mask(&d, CapSet::Bounding), Err(CapsError::UnsupportedSet));
}

#[test]
fn query_reads_bits_of_the_chosen_class() {
    let d = sample();
    assert_eq!(query(&d, CapSet::Effective, cap(1)), Ok(true));
    assert_eq!(query(&d, CapSet::Effective, cap(2)), Ok(false));
    assert_eq!(query(&d, CapSet::Effective, cap(34)), Ok(true));
    assert_eq!(query(&d, CapSet::Effective, cap(35)), Ok(false));
    assert_eq!(query(&d, CapSet::Inheritable, cap(8)), Ok(true));
    assert_eq!(query(&d, CapSet::Permitted, cap(39)), Ok(true));
    assert_eq!(query(&d, CapSet::Permitted, cap(40)), Ok(false));
    assert_eq!(query(&d, CapSet::Permitted, cap(200)), Ok(false));
    assert_eq!(query(&d, CapSet::Ambient, cap(1)), Err(CapsError::UnsupportedSet));
}

#[test]
fn read_all_lists_set_bits() {
    let d = sample();
    let v = read_all(&d, CapSet::Effective).unwrap();
    let mut got: Vec<u8> = v.as_slice().iter().map(|c| c.index()).collect();
    got.sort();
    assert_eq!(got, vec![1, 3, 34]);
    assert_eq!(read_all(&d, CapSet::Permitted).unwrap().as_slice().len(), 40);
    assert!(read_all(&empty_data(), CapSet::Inheritable).unwrap().as_slice().is_empty());
    assert!(matches!(read_all(&d, CapSet::Bounding), Err(CapsError::UnsupportedSet)));
}

#[test]
fn query_agrees_with_read_all() {
    let d = sample();
    for s in BASE {
        let all = read_all(&d, s).unwrap();
        for i in 0..70u8 {
            assert_eq!(query(&d, s, cap(i)).unwrap(), all.contains(cap(i)));
        }
    }
}

#[test]
fn pack_places_bits_in_low_or_high_word() {
    assert_eq!(pack(&set_of(&[5])), Ok((1 << 5, 0)));
    assert_eq!(pack(&set_of(&[40])), Ok((0, 1 << 8)));
    assert_eq!(pack(&set_of(&[0, 31, 32, 63])), Ok((0x8000_0001, 0x8000_0001)));
    assert_eq!(pack(&CapsHashSet::new()), Ok((0, 0)));
    assert_eq!(pack(&set_of(&[3, 64])), Err(CapsError::OversizedIndex(64)));
}

#[test]
fn overwrite_index_five_sets_low_bit_five() {
    let mut d = sample();
    overwrite(&mut d, CapSet::Effective, &set_of(&[5])).unwrap();
    assert_eq!(d.effective_s0, 1 << 5);
    assert_eq!(d.effective_s1, 0);
    assert_eq!(d.permitted_s0, sample().permitted_s0);
    assert_eq!(d.permitted_s1, sample().permitted_s1);
    assert_eq!(d.inheritable_s0, sample().inheritable_s0);
}

#[test]
fn overwrite_index_forty_sets_high_bit_eight() {
    let mut d = sample();
    overwrite(&mut d, CapSet::Inheritable, &set_of(&[40])).unwrap();
    assert_eq!(d.inheritable_s0, 0);
    assert_eq!(d.inheritable_s1, 1 << 8);
    assert_eq!(d.effective_s0, sample().effective_s0);
    assert_eq!(d.effective_s1, sample().effective_s1);
}

#[test]
fn overwrite_rejects_oversized_index_unchanged() {
    let mut d = sample();
    let r = overwrite(&mut d, CapSet::Permitted, &set_of(&[2, 99]));
    assert_eq!(r, Err(CapsError::OversizedIndex(99)));
    assert_eq!(d, sample());
    let r = overwrite(&mut d, CapSet::Ambient, &set_of(&[2]));
    assert_eq!(r, Err(CapsError::UnsupportedSet));
    assert_eq!(d, sample());
}

#[test]
fn clear_all_permitted_also_clears_effective() {
    let mut d = sample();
    clear_all(&mut d, CapSet::Permitted).unwrap();
    assert_eq!((d.permitted_s0, d.permitted_s1), (0, 0));
    assert_eq!((d.effective_s0, d.effective_s1), (0, 0));
    assert_eq!(d.inheritable_s0, 0x100);
}

#[test]
fn clear_all_effective_keeps_permitted() {
    let mut d = sample();
    clear_all(&mut d, CapSet::Effective).unwrap();
    assert_eq!((d.effective_s0, d.effective_s1), (0, 0));
    assert_eq!((d.permitted_s0, d.permitted_s1), (0xffff_ffff, 0xff));
    let mut d = sample();
    assert_eq!(clear_all(&mut d, CapSet::Bounding), Err(CapsError::UnsupportedSet));
    assert_eq!(d, sample());
}

#[test]
fn raise_then_query_then_drop() {
    for s in BASE {
        for i in [0u8, 7, 31, 32, 45, 63] {
            let mut k = FakeKernel::new(empty_data());
            assert!(is_done(&k.run(base::raise(0, s, cap(i)))));
            assert!(present(k.run(base::has_cap(0, s, cap(i)))));
            assert!(is_done(&k.run(base::drop(0, s, cap(i)))));
            assert!(!present(k.run(base::has_cap(0, s, cap(i)))));
        }
    }
}

#[test]
fn raise_keeps_other_classes() {
    let mut k = FakeKernel::new(sample());
    assert!(is_done(&k.run(base::raise(7, CapSet::Inheritable, cap(33)))));
    assert_eq!(k.data.inheritable_s1, 2);
    assert_eq!(k.data.inheritable_s0, 0x100);
    assert_eq!(k.data.effective_s0, sample().effective_s0);
    assert_eq!(k.data.permitted_s1, sample().permitted_s1);
    assert_eq!((k.fetches, k.stores), (2, 1));
}

#[test]
fn raise_oversized_index_fails_without_store() {
    let mut k = FakeKernel::new(sample());
    let r = k.run(base::raise(0, CapSet::Effective, cap(64)));
    assert!(matches!(r, Err(CapsError::OversizedIndex(64))));
    assert_eq!(k.stores, 0);
    assert_eq!(k.data, sample());
}

#[test]
fn clear_permitted_then_read_effective_is_empty() {
    let mut k = FakeKernel::new(sample());
    assert!(is_done(&k.run(base::clear(0, CapSet::Permitted))));
    assert!(indices(k.run(base::read(0, CapSet::Effective))).is_empty());
    assert!(indices(k.run(base::read(0, CapSet::Permitted))).is_empty());
    assert_eq!(indices(k.run(base::read(0, CapSet::Inheritable))), vec![8]);
}

#[test]
fn overwrite_then_read_round_trip() {
    let wanted: [&[u8]; 4] = [&[], &[5], &[40], &[0, 1, 12, 31, 32, 50, 63]];
    for s in BASE {
        for w in wanted {
            let mut k = FakeKernel::new(sample());
            assert!(is_done(&k.run(base::set(0, s, set_of(w)))));
            assert_eq!(indices(k.run(base::read(0, s))), w.to_vec());
        }
    }
}

#[test]
fn set_with_index_forty_stores_high_bit_eight() {
    let mut k = FakeKernel::new(sample());
    assert!(is_done(&k.run(base::set(0, CapSet::Permitted, set_of(&[40])))));
    assert_eq!((k.data.permitted_s0, k.data.permitted_s1), (0, 1 << 8));
}

#[test]
fn set_with_oversized_index_makes_no_call() {
    let mut k = FakeKernel::new(sample());
    let r = k.run(base::set(0, CapSet::Effective, set_of(&[1, 64])));
    assert!(matches!(r, Err(CapsError::OversizedIndex(64))));
    assert_eq!(k.calls(), 0);
}

#[test]
fn unsupported_sets_make_no_call() {
    for s in [CapSet::Bounding, CapSet::Ambient] {
        let mut k = FakeKernel::new(sample());
        assert!(matches!(k.run(base::has_cap(0, s, cap(1))), Err(CapsError::UnsupportedSet)));
        assert!(matches!(k.run(base::read(0, s)), Err(CapsError::UnsupportedSet)));
        assert!(matches!(k.run(base::clear(0, s)), Err(CapsError::UnsupportedSet)));
        assert!(matches!(k.run(base::set(0, s, set_of(&[1]))), Err(CapsError::UnsupportedSet)));
        assert!(matches!(k.run(base::drop(0, s, cap(1))), Err(CapsError::UnsupportedSet)));
        assert!(matches!(k.run(base::raise(0, s, cap(1))), Err(CapsError::UnsupportedSet)));
        assert_eq!(k.calls(), 0);
    }
}

#[test]
fn drop_absent_capability_makes_no_store() {
    let mut k = FakeKernel::new(sample());
    assert!(is_done(&k.run(base::drop(0, CapSet::Effective, cap(2)))));
    assert_eq!((k.fetches, k.stores), (1, 0));
    assert_eq!(k.data, sample());
}

#[test]
fn raise_present_capability_makes_no_store() {
    let mut k = FakeKernel::new(sample());
    assert!(is_done(&k.run(base::raise(0, CapSet::Permitted, cap(39)))));
    assert_eq!((k.fetches, k.stores), (1, 0));
}

#[test]
fn drop_present_capability_fetches_twice_and_stores_once() {
    let mut k = FakeKernel::new(sample());
    assert!(is_done(&k.run(base::drop(0, CapSet::Effective, cap(34)))));
    assert_eq!((k.fetches, k.stores), (2, 1));
    assert_eq!((k.data.effective_s0, k.data.effective_s1), (0b1010, 0));
}

#[test]
fn failed_fetch_is_reported_raw() {
    let mut k = FakeKernel::new(sample());
    k.fail_fetch = -1;
    assert!(matches!(k.run(base::has_cap(0, CapSet::Effective, cap(1))), Err(CapsError::SyscallFailure(-1))));
    assert!(matches!(k.run(base::clear(0, CapSet::Effective)), Err(CapsError::SyscallFailure(-1))));
    assert_eq!(k.stores, 0);
}

#[test]
fn failed_store_is_reported_raw() {
    let mut k = FakeKernel::new(sample());
    k.fail_store = -1;
    let r = k.run(base::clear(0, CapSet::Inheritable));
    assert!(matches!(r, Err(CapsError::SyscallFailure(-1))));
    assert_eq!(k.data, sample());
}
