//! Tests of the kernel-readiness state machine.

use simslime::error::EngineError;
use simslime::pipeline::{KernelStatus, PipelineLoader, PipelineState, TickAction};

#[test]
fn loader_waits_while_compiling() {
    let mut l = PipelineLoader::new();
    assert_eq!(l.state, PipelineState::Loading);
    let a = l.poll(KernelStatus::Pending, KernelStatus::Pending, KernelStatus::Pending);
    assert_eq!(a, Ok(TickAction::Idle));
    assert_eq!(l.state, PipelineState::Loading);
}

#[test]
fn loader_seeds_once_on_entering_init() {
    let mut l = PipelineLoader::new();
    let a = l.poll(KernelStatus::Ready, KernelStatus::Pending, KernelStatus::Pending);
    assert_eq!(a, Ok(TickAction::SeedInit));
    assert_eq!(l.state, PipelineState::Init);
    // Still compiling the update kernels: idle, no second seeding.
    let a = l.poll(KernelStatus::Ready, KernelStatus::Ready, KernelStatus::Pending);
    assert_eq!(a, Ok(TickAction::Idle));
    assert_eq!(l.state, PipelineState::Init);
}

#[test]
fn loader_enters_update_with_parity_set() {
    let mut l = PipelineLoader::new();
    l.poll(KernelStatus::Ready, KernelStatus::Pending, KernelStatus::Pending).unwrap();
    let a = l.poll(KernelStatus::Ready, KernelStatus::Ready, KernelStatus::Ready);
    assert_eq!(a, Ok(TickAction::Generation { parity: true }));
    assert_eq!(l.state, PipelineState::Update { parity: true });
}

#[test]
fn loader_alternates_parity_forever() {
    let mut l = PipelineLoader::new();
    l.poll(KernelStatus::Ready, KernelStatus::Pending, KernelStatus::Pending).unwrap();
    l.poll(KernelStatus::Ready, KernelStatus::Ready, KernelStatus::Ready).unwrap();
    let mut expect = false;
    for _ in 0..10 {
        let a = l.poll(KernelStatus::Pending, KernelStatus::Pending, KernelStatus::Pending);
        assert_eq!(a, Ok(TickAction::Generation { parity: expect }));
        assert_eq!(l.state, PipelineState::Update { parity: expect });
        expect = !expect;
    }
}

#[test]
fn init_compile_failure_is_fatal() {
    let mut l = PipelineLoader::new();
    let a = l.poll(KernelStatus::Failed, KernelStatus::Ready, KernelStatus::Ready);
    assert_eq!(a, Err(EngineError::KernelCompileFailed));
    assert_eq!(l.state, PipelineState::Loading);
}

#[test]
fn update_compile_failure_is_fatal() {
    let mut l = PipelineLoader::new();
    l.poll(KernelStatus::Ready, KernelStatus::Pending, KernelStatus::Pending).unwrap();
    let a = l.poll(KernelStatus::Ready, KernelStatus::Failed, KernelStatus::Ready);
    assert_eq!(a, Err(EngineError::KernelCompileFailed));
    let a = l.poll(KernelStatus::Ready, KernelStatus::Ready, KernelStatus::Failed);
    assert_eq!(a, Err(EngineError::KernelCompileFailed));
    assert_eq!(l.state, PipelineState::Init);
}
