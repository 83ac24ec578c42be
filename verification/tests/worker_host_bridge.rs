use moli_renderer::worker_host_bridge::{
    DedicatedWorkerId, PageId, PageWorkerHostBridgeCurrentEffect, PageWorkerHostBridgeTargetEffect,
    PageWorkerHostBridgeTurnAction, PendingSubresourceContinueEvent, RendererDocumentToken,
    RendererOwnerResourceActivitySource, RendererPageNetworkingSource, RendererPageNetworkingTask,
    RendererPageWorkerHostBridgeOwner, RendererPageWorkerHostBridgeTask,
    RendererWorkerHostBridgeEventSender, RendererWorkerHostBridgeTarget, SharedWorkerInstanceId,
    WorkerRuntimeEvent, WorkerToParentMessage,
};

fn root_document(generation: u64) -> RendererDocumentToken {
    RendererDocumentToken {
        page_id: PageId::new_for_testing(71),
        generation,
    }
}

fn dedicated_worker_id(raw: u64) -> DedicatedWorkerId {
    DedicatedWorkerId::new(raw)
}

fn pop_worker_task(source: &mut RendererPageNetworkingSource) -> RendererPageWorkerHostBridgeTask {
    let (_, task) = source
        .pop_front_task()
        .expect("Worker host bridge task should remain in the networking FIFO");
    let RendererPageNetworkingTask::WorkerHostBridge(task) = task;
    task
}

#[test]
fn fetch_cancellation_and_continue_keep_specific_activity_sources() {
    let mut source = RendererPageNetworkingSource::new_for_test();
    let sender = RendererWorkerHostBridgeEventSender::new(source.route(), root_document(1));
    let worker_id = dedicated_worker_id(7);

    sender
        .send(WorkerRuntimeEvent::Message {
            worker_id,
            message: Box::new(WorkerToParentMessage::PendingSubresourceFetchCanceled {
                fetch_id: 99,
                error_text: "blocked".to_owned(),
            }),
        })
        .expect("fetch cancellation should send");
    sender
        .send(WorkerRuntimeEvent::Message {
            worker_id,
            message: Box::new(WorkerToParentMessage::SubresourceContinue(
                PendingSubresourceContinueEvent::Completed { internal_id: 100 },
            )),
        })
        .expect("continue event should send");

    assert_eq!(
        pop_worker_task(&mut source).activity_source(),
        RendererOwnerResourceActivitySource::WorkerFetchCancellation
    );
    assert_eq!(
        pop_worker_task(&mut source).activity_source(),
        RendererOwnerResourceActivitySource::WorkerContinueEvent
    );
}

#[test]
fn dedicated_worker_terminal_stays_after_the_prior_bridge_burst() {
    let mut source = RendererPageNetworkingSource::new_for_test();
    let sender = RendererWorkerHostBridgeEventSender::new(source.route(), root_document(1));
    let worker_id = dedicated_worker_id(7);

    for fetch_id in 1..=9 {
        sender
            .send(WorkerRuntimeEvent::Message {
                worker_id,
                message: Box::new(WorkerToParentMessage::PendingSubresourceFetchCanceled {
                    fetch_id,
                    error_text: "closed".to_owned(),
                }),
            })
            .expect("DedicatedWorker host record should send");
    }
    sender
        .send(WorkerRuntimeEvent::HostBridgeDrained { worker_id })
        .expect("DedicatedWorker terminal should share the host bridge FIFO");

    for expected_fetch_id in 1..=9 {
        assert!(matches!(
            pop_worker_task(&mut source).into_event(),
            WorkerRuntimeEvent::Message {
                worker_id: queued_worker_id,
                message,
            } if queued_worker_id == worker_id
                && matches!(
                    message.as_ref(),
                    WorkerToParentMessage::PendingSubresourceFetchCanceled {
                        fetch_id,
                        ..
                    } if *fetch_id == expected_fetch_id
                )
        ));
    }
    assert!(matches!(
        pop_worker_task(&mut source).into_event(),
        WorkerRuntimeEvent::HostBridgeDrained {
            worker_id: queued_worker_id,
        } if queued_worker_id == worker_id
    ));
}

#[test]
fn shared_worker_target_and_activity_are_not_inferred_from_dedicated_ids() {
    let mut source = RendererPageNetworkingSource::new_for_test();
    let sender = RendererWorkerHostBridgeEventSender::new(source.route(), root_document(1));
    let instance_id = SharedWorkerInstanceId::from_u64(7);

    sender
        .send(WorkerRuntimeEvent::SharedWorkerMessage {
            instance_id,
            message: Box::new(WorkerToParentMessage::PendingSubresourceFetchCanceled {
                fetch_id: 99,
                error_text: "blocked".to_owned(),
            }),
        })
        .expect("SharedWorker host record should send");

    let task = pop_worker_task(&mut source);
    assert_eq!(
        task.owner().target(),
        RendererWorkerHostBridgeTarget::Shared(instance_id)
    );
    assert_eq!(
        task.activity_source(),
        RendererOwnerResourceActivitySource::WorkerFetchCancellation
    );
}

#[test]
fn closed_page_route_rejects_worker_record_without_fallback() {
    let source = RendererPageNetworkingSource::new_for_test();
    let sender = RendererWorkerHostBridgeEventSender::new(source.route(), root_document(1));
    drop(source);

    assert!(
        sender
            .send(WorkerRuntimeEvent::HostBridgeDrained {
                worker_id: dedicated_worker_id(7),
            })
            .is_err(),
        "a retired Page route must not resurrect Worker work in a fallback queue"
    );
}

#[test]
fn page_worker_action_accessors_preserve_the_applied_fact() {
    let owner = RendererPageWorkerHostBridgeOwner::new(
        root_document(1),
        RendererWorkerHostBridgeTarget::Dedicated(dedicated_worker_id(7)),
    );
    let action = PageWorkerHostBridgeTurnAction::new(
        owner,
        RendererOwnerResourceActivitySource::Worker,
        PageWorkerHostBridgeTargetEffect::AppliedToCurrentOwner(
            PageWorkerHostBridgeCurrentEffect::StateAppliedWithoutPageContext,
        ),
    );

    assert_eq!(action.owner(), owner);
    assert_eq!(
        action.activity_source(),
        RendererOwnerResourceActivitySource::Worker
    );
    assert_eq!(
        action.target_effect(),
        PageWorkerHostBridgeTargetEffect::AppliedToCurrentOwner(
            PageWorkerHostBridgeCurrentEffect::StateAppliedWithoutPageContext,
        )
    );
}

#[test]
fn stamped_tasks_keep_the_producer_root_document_and_target() {
    let mut source = RendererPageNetworkingSource::new_for_test();
    let expected_root = root_document(3);
    let sender = RendererWorkerHostBridgeEventSender::new(source.route(), expected_root);
    let worker_id = dedicated_worker_id(8);

    sender
        .send(WorkerRuntimeEvent::HostBridgeDrained { worker_id })
        .expect("Worker host terminal should enter the networking FIFO");

    let task = pop_worker_task(&mut source);
    assert_eq!(task.owner().root_document(), expected_root);
    assert_eq!(
        task.owner().target(),
        RendererWorkerHostBridgeTarget::Dedicated(worker_id)
    );
    assert!(source.pop_front_task().is_none());
}
