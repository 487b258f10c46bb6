use metal_hal::{
    CommandBufferStatus, CopyExtent, Fence, PresentAction, Queue, SubmitAction, SurfaceTexture, Texture, PRESENT_LABEL,
    SIGNAL_LABEL,
};
use std::borrow::Borrow;
use std::sync::atomic::AtomicU64;
use std::sync::Arc;

fn fence(shared_event: Option<u8>) -> Fence<u32, u8> {
    Fence {
        completed_value: Arc::new(AtomicU64::new(0)),
        pending_command_buffers: vec![],
        shared_event,
    }
}

fn texture(present_with_transaction: bool) -> SurfaceTexture<&'static str, u8, u8, char> {
    SurfaceTexture {
        texture: Texture {
            raw: "texture",
            format: 1,
            raw_type: 2,
            array_layers: 3,
            mip_levels: 4,
            copy_size: CopyExtent { width: 5, height: 6, depth: 7 },
        },
        drawable: 'd',
        present_with_transaction,
    }
}

#[test]
fn a_queue_gives_back_what_it_wraps() {
    let queue = Queue::queue_from_raw("raw", 1.5f32);
    assert_eq!(*queue.as_raw(), "raw");
    assert_eq!(queue.get_timestamp_period(), 1.5);
}

#[test]
fn submission_signals_with_the_last_command_buffer() {
    let queue = Queue::queue_from_raw((), ());
    assert_eq!(
        queue.prepare_submit(3, 7),
        vec![
            SubmitAction::TakeCommandBuffer(2),
            SubmitAction::SetSignalLabel,
            SubmitAction::StoreOnCompletion(7),
        ]
    );
    let mut fence = fence(None);
    assert_eq!(
        queue.submit(3, &mut fence, 0, &[], 7, 102),
        vec![SubmitAction::Commit(0), SubmitAction::Commit(1), SubmitAction::Commit(2)]
    );
    assert_eq!(fence.pending_command_buffers, vec![(7, 102)]);
}

#[test]
fn submission_without_command_buffers_makes_one() {
    let queue = Queue::queue_from_raw((), ());
    assert_eq!(
        queue.prepare_submit(0, 7),
        vec![
            SubmitAction::CreateCommandBuffer,
            SubmitAction::SetSignalLabel,
            SubmitAction::StoreOnCompletion(7),
        ]
    );
    let mut fence = fence(None);
    assert_eq!(queue.submit(0, &mut fence, 0, &[], 7, 100), vec![SubmitAction::CommitCreated]);
    assert_eq!(fence.pending_command_buffers, vec![(7, 100)]);
}

#[test]
fn submission_signals_the_shared_event_before_commits() {
    let queue = Queue::queue_from_raw((), ());
    let mut fence = fence(Some(1));
    assert_eq!(
        queue.submit(1, &mut fence, 0, &[], 9, 100),
        vec![SubmitAction::EncodeSignalEvent(9), SubmitAction::Commit(0)]
    );
    assert_eq!(fence.shared_event, Some(1));
}

#[test]
fn submission_forgets_what_the_fence_has_reached() {
    let queue = Queue::queue_from_raw((), ());
    let mut fence = fence(None);
    fence.pending_command_buffers = vec![(4, 14), (5, 15), (6, 16)];
    let statuses = [
        CommandBufferStatus::Completed,
        CommandBufferStatus::Completed,
        CommandBufferStatus::Scheduled,
    ];
    queue.submit(1, &mut fence, 3, &statuses, 7, 17);
    assert_eq!(fence.pending_command_buffers, vec![(6, 16), (7, 17)]);
}

#[test]
fn submission_commits_each_command_buffer_once() {
    let queue = Queue::queue_from_raw((), ());
    let mut actions = queue.prepare_submit(100, 9);
    assert!(actions.iter().all(|action| !matches!(action, SubmitAction::Commit(_))));
    actions.extend(queue.submit(100, &mut fence(Some(1)), 0, &[], 9, 0));
    let commits: Vec<SubmitAction> = actions
        .into_iter()
        .filter(|action| matches!(action, SubmitAction::Commit(_) | SubmitAction::CommitCreated))
        .collect();
    let expected: Vec<SubmitAction> = (0..100).map(SubmitAction::Commit).collect();
    assert_eq!(commits, expected);
}

#[test]
fn presentation_is_encoded_before_the_commit() {
    let queue = Queue::queue_from_raw((), ());
    assert_eq!(
        queue.present(&texture(false)),
        vec![
            PresentAction::CreateCommandBuffer,
            PresentAction::SetPresentLabel,
            PresentAction::EncodePresent,
            PresentAction::Commit,
        ]
    );
}

#[test]
fn presentation_in_a_transaction_waits_for_scheduling() {
    let queue = Queue::queue_from_raw((), ());
    assert_eq!(
        queue.present(&texture(true)),
        vec![
            PresentAction::CreateCommandBuffer,
            PresentAction::SetPresentLabel,
            PresentAction::Commit,
            PresentAction::WaitUntilScheduled,
            PresentAction::PresentDrawable,
        ]
    );
}

#[test]
fn labels() {
    assert_eq!(SIGNAL_LABEL, "(wgpu internal) Signal");
    assert_eq!(PRESENT_LABEL, "(wgpu internal) Present");
}

fn layers<B: Borrow<Texture<&'static str, u8, u8>>>(texture: &B) -> u32 {
    texture.borrow().array_layers
}

#[test]
fn a_surface_texture_lends_its_texture() {
    let surface_texture = texture(false);
    let texture: &Texture<&'static str, u8, u8> = surface_texture.borrow();
    assert_eq!(texture.mip_levels, 4);
    assert_eq!(*texture.raw_handle(), "texture");
    assert_eq!(layers(&surface_texture), 3);
    assert_eq!(layers(texture), 3);
}
