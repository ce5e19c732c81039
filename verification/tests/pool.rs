use command::buffer::CommandBuffer;
use command::capability::{Capability, Compute, General, Graphics, QueueType, Transfer};
use command::level::{Level, PrimaryLevel, RawLevel, SecondaryLevel};
use command::pool::CommandPool;
use command::reset::{IndividualReset, NoIndividualReset, Reset};
use command::state::{InitialState, Lifecycle};
use gfx_hal::queue::QueueFamilyId;

/// A raw pool as a backend would hand it out.
#[derive(Debug, PartialEq, Eq)]
struct RawPool {
    id: u32,
    resets: u32,
}

/// A backend that remembers what it was asked for.
#[derive(Default)]
struct Backend {
    next_handle: u32,
    live: Vec<u32>,
    allocate_calls: usize,
    free_calls: usize,
    destroyed: Vec<u32>,
}

impl Backend {
    fn allocate(&mut self, _pool: &mut RawPool, count: usize) -> Vec<u32> {
        self.allocate_calls += 1;
        let mut handles = Vec::new();
        for _ in 0..count {
            self.next_handle += 1;
            self.live.push(self.next_handle);
            handles.push(self.next_handle);
        }
        handles
    }

    fn free(&mut self, _pool: &mut RawPool, handles: Vec<u32>) {
        self.free_calls += 1;
        for handle in handles {
            let at = self.live.iter().position(|live| *live == handle);
            self.live.remove(at.expect("freed a handle that is not allocated"));
        }
    }

    fn reset(&mut self, pool: &mut RawPool) {
        pool.resets += 1;
    }

    fn destroy(&mut self, pool: RawPool) {
        assert!(self.live.is_empty(), "destroyed a pool with buffers left");
        self.destroyed.push(pool.id);
    }
}

fn allocate<C: Capability, R: Reset, L: Level>(
    backend: &mut Backend,
    pool: &mut CommandPool<RawPool, C, R>,
    level: L,
    count: usize,
) -> Vec<CommandBuffer<u32, C, InitialState, L, R>> {
    let raws = backend.allocate(pool.raw_mut(), count);
    assert!(pool.outstanding().checked_add(raws.len()).is_some());
    pool.allocate_buffers(level, raws)
}

#[test]
fn a_pool_keeps_what_it_is_given() {
    let pool = CommandPool::from_raw(RawPool { id: 8, resets: 0 }, Compute, IndividualReset, QueueFamilyId(4));
    assert_eq!(*pool.raw(), RawPool { id: 8, resets: 0 });
    assert_eq!(pool.capability(), Compute);
    assert_eq!(pool.reset_policy(), IndividualReset);
    assert_eq!(pool.family(), QueueFamilyId(4));
    assert_eq!(pool.outstanding(), 0);
    assert_eq!(pool.dispose(), RawPool { id: 8, resets: 0 });
}

#[test]
fn allocated_buffers_have_the_tags_of_the_pool() {
    let mut backend = Backend::default();
    for family in [0usize, 1, 7] {
        let mut pool = CommandPool::from_raw(RawPool { id: 1, resets: 0 }, General, NoIndividualReset, QueueFamilyId(family));
        let buffers = allocate(&mut backend, &mut pool, SecondaryLevel, 4);
        assert_eq!(buffers.len(), 4);
        for buffer in &buffers {
            assert_eq!(buffer.capability(), pool.capability());
            assert_eq!(buffer.level(), SecondaryLevel);
            assert_eq!(buffer.reset_policy(), pool.reset_policy());
            assert_eq!(buffer.family(), QueueFamilyId(family));
            assert_eq!(buffer.state(), Lifecycle::Initial);
        }
        assert_eq!(pool.outstanding(), 4);
        let raws = pool.free_buffers(buffers);
        backend.free(pool.raw_mut(), raws);
        backend.destroy(pool.dispose());
    }
}

#[test]
fn allocated_buffers_with_a_capability_value() {
    for capability in [QueueType::General, QueueType::Graphics, QueueType::Compute, QueueType::Transfer] {
        let mut pool = CommandPool::from_raw(0u8, capability, IndividualReset, QueueFamilyId(2));
        let buffers = pool.allocate_buffers(RawLevel::Primary, vec![30u64, 31]);
        assert_eq!(buffers[0].capability(), capability);
        assert_eq!(buffers[1].capability(), capability);
        assert_eq!(buffers[0].level(), RawLevel::Primary);
        assert_eq!(buffers[1].reset_policy(), IndividualReset);
        assert_eq!(pool.free_buffers(buffers), vec![30, 31]);
        assert_eq!(pool.dispose(), 0);
    }
}

#[test]
fn buffers_come_in_the_order_of_their_handles() {
    let mut pool = CommandPool::from_raw((), Transfer, NoIndividualReset, QueueFamilyId(0));
    let buffers = pool.allocate_buffers(PrimaryLevel, vec![5u32, 3, 9, 1]);
    let raws: Vec<u32> = buffers.iter().map(|buffer| *buffer.raw()).collect();
    assert_eq!(raws, vec![5, 3, 9, 1]);
    assert_eq!(pool.outstanding(), 4);
    let more = pool.allocate_buffers(PrimaryLevel, Vec::<u32>::new());
    assert!(more.is_empty());
    assert_eq!(pool.outstanding(), 4);
    assert_eq!(pool.free_buffers(buffers), vec![5, 3, 9, 1]);
    assert_eq!(pool.outstanding(), 0);
    pool.dispose();
}

#[test]
fn free_buffers_counts_down() {
    let mut pool = CommandPool::from_raw((), Transfer, NoIndividualReset, QueueFamilyId(0));
    let mut buffers = pool.allocate_buffers(PrimaryLevel, vec![1u32, 2, 3, 4, 5]);
    let rest = buffers.split_off(2);
    assert_eq!(pool.free_buffers(buffers), vec![1, 2]);
    assert_eq!(pool.outstanding(), 3);
    assert_eq!(pool.free_buffers(Vec::<CommandBuffer<u32, Transfer, InitialState>>::new()), Vec::<u32>::new());
    assert_eq!(pool.outstanding(), 3);
    assert_eq!(pool.free_buffers(rest), vec![3, 4, 5]);
    assert_eq!(pool.outstanding(), 0);
    pool.dispose();
}

#[test]
fn narrow_then_widen_gives_the_value_back() {
    for (capability, id) in [(QueueType::Graphics, 1u32), (QueueType::General, 2)] {
        let pool = CommandPool::from_raw(RawPool { id, resets: 0 }, capability, NoIndividualReset, QueueFamilyId(1));
        let widened = if capability == QueueType::Graphics {
            pool.with_capability::<Graphics>().unwrap().with_value_capability()
        } else {
            pool.with_capability::<General>().unwrap().with_value_capability()
        };
        assert_eq!(widened.capability(), capability);
        assert_eq!(*widened.raw(), RawPool { id, resets: 0 });
        assert_eq!(widened.family(), QueueFamilyId(1));
        let twice = widened.with_value_capability();
        assert_eq!(twice.capability(), capability);
        let thrice = twice.with_value_capability();
        assert_eq!(thrice.capability(), capability);
        thrice.dispose();
    }
}

#[test]
fn narrow_to_less_then_widen_gives_the_narrowed_value() {
    let pool = CommandPool::from_raw(1u8, QueueType::General, NoIndividualReset, QueueFamilyId(1));
    let narrowed = pool.with_capability::<Transfer>().unwrap();
    assert_eq!(narrowed.capability(), Transfer);
    let widened = narrowed.with_value_capability();
    assert_eq!(widened.capability(), QueueType::Transfer);
    assert!(QueueType::General.supports_all_of(widened.capability()));
    widened.dispose();
}

#[test]
fn narrowing_between_markers() {
    let pool = CommandPool::from_raw(1u8, General, IndividualReset, QueueFamilyId(6));
    let pool = pool.with_capability::<Compute>().unwrap();
    assert_eq!(pool.capability(), Compute);
    let pool = pool.with_capability::<Transfer>().unwrap();
    assert_eq!(pool.capability(), Transfer);
    assert_eq!(pool.reset_policy(), IndividualReset);
    assert_eq!(pool.family(), QueueFamilyId(6));
    assert_eq!(pool.dispose(), 1);
}

#[test]
fn a_failed_narrow_gives_the_pool_back_unchanged() {
    let mut backend = Backend::default();
    let mut pool = CommandPool::from_raw(RawPool { id: 11, resets: 0 }, QueueType::Compute, IndividualReset, QueueFamilyId(5));
    let buffers = allocate(&mut backend, &mut pool, PrimaryLevel, 2);
    let calls = (backend.allocate_calls, backend.free_calls);
    let live = backend.live.clone();

    let pool = pool.with_capability::<Graphics>().unwrap_err();
    assert_eq!(*pool.raw(), RawPool { id: 11, resets: 0 });
    assert_eq!(pool.capability(), QueueType::Compute);
    assert_eq!(pool.reset_policy(), IndividualReset);
    assert_eq!(pool.family(), QueueFamilyId(5));
    assert_eq!(pool.outstanding(), 2);
    let mut pool = pool.with_capability::<General>().unwrap_err();
    assert_eq!(pool.capability(), QueueType::Compute);
    assert_eq!(pool.outstanding(), 2);
    assert_eq!((backend.allocate_calls, backend.free_calls), calls);
    assert_eq!(backend.live, live);

    let raws = pool.free_buffers(buffers);
    backend.free(pool.raw_mut(), raws);
    backend.destroy(pool.dispose());
}

#[test]
fn reset_hands_out_the_raw_pool_and_frees_nothing() {
    let mut backend = Backend::default();
    let mut pool = CommandPool::from_raw(RawPool { id: 2, resets: 0 }, Graphics, NoIndividualReset, QueueFamilyId(0));
    let buffers = allocate(&mut backend, &mut pool, PrimaryLevel, 3);
    let recorded: Vec<_> = buffers.into_iter().map(|buffer| buffer.begin().finish()).collect();
    backend.reset(pool.reset());
    assert_eq!(*pool.raw(), RawPool { id: 2, resets: 1 });
    assert_eq!(pool.outstanding(), 3);
    assert_eq!(pool.capability(), Graphics);
    assert_eq!(backend.live.len(), 3);
    let marked: Vec<_> = recorded.into_iter().map(|buffer| buffer.mark_reset()).collect();
    for buffer in &marked {
        assert_eq!(buffer.state(), Lifecycle::Initial);
    }
    let raws = pool.free_buffers(marked);
    backend.free(pool.raw_mut(), raws);
    backend.destroy(pool.dispose());
    assert_eq!(backend.destroyed, vec![2]);
}

#[test]
fn free_executable_buffers_then_dispose() {
    let mut backend = Backend::default();
    let mut pool = CommandPool::from_raw(RawPool { id: 3, resets: 0 }, Compute, NoIndividualReset, QueueFamilyId(1));
    let buffers = allocate(&mut backend, &mut pool, PrimaryLevel, 4);
    let executable: Vec<_> = buffers.into_iter().map(|buffer| buffer.begin().finish()).collect();
    for buffer in &executable {
        assert_eq!(buffer.state(), Lifecycle::Executable);
    }
    let raws = pool.free_buffers(executable);
    assert_eq!(raws, vec![1, 2, 3, 4]);
    backend.free(pool.raw_mut(), raws);
    assert_eq!(backend.free_calls, 1);
    assert_eq!(pool.outstanding(), 0);
    assert!(backend.live.is_empty());
    let raw = pool.try_dispose().expect("nothing is outstanding");
    backend.destroy(raw);
    assert_eq!(backend.destroyed, vec![3]);
}

#[test]
fn buffers_in_each_droppable_state_are_freed() {
    let mut pool = CommandPool::from_raw(0u8, Graphics, NoIndividualReset, QueueFamilyId(0));
    let mut buffers = pool.allocate_buffers(PrimaryLevel, vec![1u32, 2, 3, 4]);
    let spent = buffers.pop().unwrap().begin().finish().submit_once().complete();
    let pending = buffers.pop().unwrap().begin().finish().submit();
    let executable = buffers.pop().unwrap().begin().finish();
    let initial = buffers.pop().unwrap();
    assert_eq!(pool.free_buffers(vec![spent]), vec![4]);
    assert_eq!(pool.free_buffers(vec![pending]), vec![3]);
    assert_eq!(pool.free_buffers(vec![executable]), vec![2]);
    assert_eq!(pool.free_buffers(vec![initial]), vec![1]);
    assert_eq!(pool.dispose(), 0);
}

#[test]
fn dispose_waits_for_every_buffer() {
    let mut backend = Backend::default();
    let pool = CommandPool::from_raw(RawPool { id: 4, resets: 0 }, Graphics, IndividualReset, QueueFamilyId(0));
    let mut pool = pool;
    let mut buffers = allocate(&mut backend, &mut pool, PrimaryLevel, 3);
    assert_eq!(buffers.len(), 3);
    for buffer in &buffers {
        assert_eq!(buffer.state(), Lifecycle::Initial);
        assert_eq!(buffer.level(), PrimaryLevel);
        assert_eq!(buffer.level().level(), RawLevel::Primary);
        assert_eq!(buffer.capability(), Graphics);
        assert_eq!(buffer.reset_policy(), IndividualReset);
        assert_eq!(buffer.family(), QueueFamilyId(0));
    }
    let buffer2 = buffers.pop().unwrap();
    let buffer1 = buffers.pop().unwrap();
    let buffer0 = buffers.pop().unwrap();
    let buffer0 = buffer0.begin();
    assert_eq!(buffer0.state(), Lifecycle::Recording);
    let buffer0 = buffer0.finish();
    assert_eq!(buffer0.state(), Lifecycle::Executable);

    let raws = pool.free_buffers(vec![buffer1, buffer2]);
    assert_eq!(raws, vec![2, 3]);
    backend.free(pool.raw_mut(), raws);
    assert_eq!(pool.outstanding(), 1);

    let mut pool = pool.try_dispose().expect_err("one buffer is not freed");
    assert_eq!(pool.outstanding(), 1);
    assert_eq!(*pool.raw(), RawPool { id: 4, resets: 0 });
    assert!(backend.destroyed.is_empty());

    let raws = pool.free_buffers(vec![buffer0]);
    assert_eq!(raws, vec![1]);
    backend.free(pool.raw_mut(), raws);
    let raw = pool.try_dispose().expect("every buffer is freed");
    backend.destroy(raw);
    assert_eq!(backend.destroyed, vec![4]);
}
