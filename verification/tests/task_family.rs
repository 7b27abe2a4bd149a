use recoverable_spawn::failure::{tokio_error_to_string, AsyncSpawnResult};
use recoverable_spawn::lifecycle::{
    classify, task_finished, Action, Composition, Event, Spawn, Stage, Verdict,
};
use recoverable_spawn::{AsyncErrorHandlerFunction, AsyncRecoverableFunction};
use std::sync::{Arc, Mutex};
use tokio::runtime::Runtime;

/// Runs a unit as a task and waits for it inside a runtime.
async fn run_task<F: AsyncRecoverableFunction>(unit: F) -> AsyncSpawnResult {
    let task = async move {
        unit.call().await;
    };
    tokio::spawn(task).await
}

/// Runs an error handler as a task and waits for it inside a runtime.
async fn run_handler_task<E: AsyncErrorHandlerFunction>(
    handler: E,
    error: Arc<String>,
) -> AsyncSpawnResult {
    let task = async move {
        handler.call(error).await;
    };
    tokio::spawn(task).await
}

/// Drives one spawn from inside a runtime: does what each action says and
/// hands back the event that answers it.
async fn drive<F, E, L>(
    composition: Composition,
    function: F,
    error_handle_function: E,
    finally: L,
) -> AsyncSpawnResult
where
    F: AsyncRecoverableFunction,
    E: AsyncErrorHandlerFunction,
    L: AsyncRecoverableFunction,
{
    let mut spawn = Spawn::new(composition);
    let mut function = Some(function);
    let mut error_handle_function = Some(error_handle_function);
    let mut finally = Some(finally);
    let mut run_result: AsyncSpawnResult = Ok(());
    let mut event: Event<String> = Event::Launched;
    loop {
        let action = spawn.step(event).expect("the event answers the last action");
        event = match action {
            Action::RunUnit => {
                run_result = run_task(function.take().expect("the unit runs once")).await;
                task_finished(&run_result)
            }
            Action::RunHandler(description) => {
                let handler = error_handle_function.take().expect("the handler runs once");
                let handled = run_handler_task(handler, Arc::new(description)).await;
                Event::HandlerDone(classify(&handled))
            }
            Action::RunFinalizer => {
                let finalized = run_task(finally.take().expect("the finalizer runs once")).await;
                Event::Finalized(classify(&finalized))
            }
            Action::Report(verdict) => {
                assert_eq!(verdict, classify(&run_result));
                assert_eq!(spawn.stage, Stage::Done(verdict));
                return run_result;
            }
        };
    }
}

/// Drives one spawn from a call site outside any runtime.
fn bridge<F, E, L>(
    runtime: &Runtime,
    composition: Composition,
    function: F,
    error_handle_function: E,
    finally: L,
) -> AsyncSpawnResult
where
    F: AsyncRecoverableFunction,
    E: AsyncErrorHandlerFunction,
    L: AsyncRecoverableFunction,
{
    runtime.block_on(drive(composition, function, error_handle_function, finally))
}

async fn nothing() {}

async fn ignore(_error: Arc<String>) {}

#[test]
fn cfg_test_async_recoverable_spawn() {
    let runtime = Runtime::new().unwrap();
    let msg: &str = "test";
    let res = bridge(
        &runtime,
        Composition::Run,
        move || async move {
            panic!("{}", msg);
        },
        ignore,
        nothing,
    );
    let err = res.expect_err("the unit terminated abnormally");
    assert!(err.is_panic());
    assert!(tokio_error_to_string(&err).contains("test"));
}

#[test]
fn cfg_test_async_recoverable_spawn_catch() {
    let runtime = Runtime::new().unwrap();
    let msg: &str = "test";
    let seen: Arc<Mutex<Vec<String>>> = Arc::new(Mutex::new(Vec::new()));
    let log = seen.clone();
    let res = bridge(
        &runtime,
        Composition::Catch,
        move || async move {
            panic!("{}", msg);
        },
        move |err: Arc<String>| async move {
            println!("handle error => {}", err);
            log.lock().unwrap().push(err.to_string());
        },
        nothing,
    );
    let err = res.expect_err("the unit terminated abnormally");
    let seen = seen.lock().unwrap().clone();
    assert_eq!(seen, vec![tokio_error_to_string(&err)]);
    assert!(seen[0].contains("test"));
}

#[test]
fn cfg_test_async_recoverable_spawn_catch_finally() {
    let runtime = Runtime::new().unwrap();
    let msg: &str = "test";
    let order: Arc<Mutex<Vec<String>>> = Arc::new(Mutex::new(Vec::new()));
    let in_handler = order.clone();
    let in_finally = order.clone();
    let res = bridge(
        &runtime,
        Composition::CatchFinally,
        move || async move {
            panic!("{}", msg);
        },
        move |err: Arc<String>| async move {
            println!("handle error => {}", err);
            in_handler.lock().unwrap().push("handler".to_string());
            panic!("{}", err);
        },
        move || async move {
            println!("finally");
            in_finally.lock().unwrap().push("finally".to_string());
        },
    );
    let err = res.expect_err("the unit terminated abnormally");
    assert!(tokio_error_to_string(&err).contains("test"));
    assert_eq!(*order.lock().unwrap(), vec!["handler".to_string(), "finally".to_string()]);
}

#[test]
fn test_test_async_recoverable_spawn() {
    let runtime = Runtime::new().unwrap();
    let msg: &str = "test";
    let res: AsyncSpawnResult = runtime.block_on(async move {
        drive(
            Composition::Run,
            move || async move {
                panic!("{}", msg);
            },
            ignore,
            nothing,
        )
        .await
    });
    println!("test_async_recoverable_spawn handle res {res:?}");
    assert_eq!(classify(&res), Verdict::Failure);
}

#[test]
fn test_test_async_recoverable_spawn_catch() {
    let runtime = Runtime::new().unwrap();
    let msg: &str = "test";
    let seen: Arc<Mutex<Vec<String>>> = Arc::new(Mutex::new(Vec::new()));
    let log = seen.clone();
    let res: AsyncSpawnResult = runtime.block_on(async move {
        drive(
            Composition::Catch,
            move || async move {
                panic!("{}", msg);
            },
            move |err: Arc<String>| async move {
                println!("async handle error => {err}");
                log.lock().unwrap().push(err.to_string());
            },
            nothing,
        )
        .await
    });
    println!("test_async_recoverable_spawn_catch handle res {res:?}");
    assert_eq!(classify(&res), Verdict::Failure);
    let err = res.expect_err("the unit terminated abnormally");
    let seen = seen.lock().unwrap().clone();
    assert_eq!(seen, vec![tokio_error_to_string(&err)]);
    assert!(seen[0].contains("test"));
}

#[test]
fn the_handler_of_a_task_gets_the_text_of_the_join_failure() {
    let runtime = Runtime::new().unwrap();
    for message in ["plain", "with \"quotes\"", "back\\slash", "two\nlines", ""] {
        let seen: Arc<Mutex<Vec<String>>> = Arc::new(Mutex::new(Vec::new()));
        let log = seen.clone();
        let res: AsyncSpawnResult = runtime.block_on(async move {
            drive(
                Composition::Catch,
                move || async move {
                    panic!("{}", message);
                },
                move |err: Arc<String>| async move {
                    log.lock().unwrap().push(err.to_string());
                },
                nothing,
            )
            .await
        });
        let err = res.expect_err("the unit terminated abnormally");
        let seen = seen.lock().unwrap().clone();
        assert_eq!(seen, vec![tokio_error_to_string(&err)]);
        assert!(seen[0].ends_with(&format!("panicked with message {message:?}")));
    }
}

#[test]
fn task_finished_describes_a_failure_by_its_text() {
    let runtime = Runtime::new().unwrap();
    let joined: AsyncSpawnResult = runtime.block_on(async {
        tokio::spawn(async {
            panic!("test");
        })
        .await
    });
    let text = tokio_error_to_string(joined.as_ref().expect_err("the task terminated abnormally"));
    assert!(!text.is_empty());
    assert_eq!(task_finished(&joined), Event::Failed(text));
    assert_eq!(task_finished(&Ok(())), Event::Succeeded);
}

#[test]
fn test_test_async_recoverable_spawn_catch_finally() {
    let runtime = Runtime::new().unwrap();
    let msg: &str = "test";
    let order: Arc<Mutex<Vec<String>>> = Arc::new(Mutex::new(Vec::new()));
    let in_handler = order.clone();
    let in_finally = order.clone();
    let res: AsyncSpawnResult = runtime.block_on(async move {
        drive(
            Composition::CatchFinally,
            move || async move {
                panic!("{}", msg);
            },
            move |err: Arc<String>| async move {
                println!("async handle error => {err}");
                in_handler.lock().unwrap().push("handler".to_string());
                panic!("{}", err);
            },
            move || async move {
                println!("finally");
                in_finally.lock().unwrap().push("finally".to_string());
            },
        )
        .await
    });
    println!("test_async_recoverable_spawn_catch_finally handle res {res:?}");
    assert_eq!(classify(&res), Verdict::Failure);
    assert_eq!(*order.lock().unwrap(), vec!["handler".to_string(), "finally".to_string()]);
}

#[test]
fn test_async_async_recoverable_spawn() {
    let runtime = Runtime::new().unwrap();
    let msg: &str = "test";
    runtime.block_on(async move {
        let _ = drive(
            Composition::Run,
            move || async move {
                panic!("{}", msg);
            },
            ignore,
            nothing,
        )
        .await;
    });
}

#[test]
fn test_async_async_recoverable_spawn_catch() {
    let runtime = Runtime::new().unwrap();
    let msg: &str = "test";
    runtime.block_on(async move {
        let _ = drive(
            Composition::Catch,
            move || async move {
                panic!("{}", msg);
            },
            move |err: Arc<String>| async move {
                println!("async handle error => {}", err);
            },
            nothing,
        )
        .await;
    });
}

#[test]
fn test_async_async_recoverable_spawn_catch_finally() {
    let runtime = Runtime::new().unwrap();
    let msg: &str = "test";
    runtime.block_on(async move {
        let _ = drive(
            Composition::CatchFinally,
            move || async move {
                panic!("{}", msg);
            },
            move |err: Arc<String>| async move {
                println!("async handle error => {}", err);
                panic!("{}", err);
            },
            move || async move {
                println!("finally");
            },
        )
        .await;
    });
}

#[test]
fn succeeding_task_never_reaches_the_handler() {
    let runtime = Runtime::new().unwrap();
    let seen: Arc<Mutex<Vec<String>>> = Arc::new(Mutex::new(Vec::new()));
    let log = seen.clone();
    let res = bridge(
        &runtime,
        Composition::Catch,
        nothing,
        move |err: Arc<String>| async move {
            log.lock().unwrap().push(err.to_string());
        },
        nothing,
    );
    assert!(res.is_ok());
    assert!(seen.lock().unwrap().is_empty());
}

#[test]
fn bridged_and_direct_runs_classify_alike() {
    let runtime = Runtime::new().unwrap();
    let bridged_failure = bridge(
        &runtime,
        Composition::Run,
        || async {
            panic!("test");
        },
        ignore,
        nothing,
    );
    let direct_failure = runtime.block_on(async {
        drive(
            Composition::Run,
            || async {
                panic!("test");
            },
            ignore,
            nothing,
        )
        .await
    });
    assert_eq!(classify(&bridged_failure), Verdict::Failure);
    assert_eq!(classify(&bridged_failure), classify(&direct_failure));
    let bridged_success = bridge(&runtime, Composition::Run, nothing, ignore, nothing);
    let direct_success =
        runtime.block_on(async { drive(Composition::Run, nothing, ignore, nothing).await });
    assert_eq!(classify(&bridged_success), Verdict::Success);
    assert_eq!(classify(&bridged_success), classify(&direct_success));
}

#[test]
fn join_failure_text_tells_a_panic_from_a_cancellation() {
    let runtime = Runtime::new().unwrap();
    let panicked = runtime
        .block_on(async {
            tokio::spawn(async {
                panic!("test");
            })
            .await
        })
        .expect_err("the task terminated abnormally");
    let text = tokio_error_to_string(&panicked);
    assert!(text.starts_with("task "));
    assert!(text.ends_with("panicked with message \"test\""));

    let cancelled = runtime
        .block_on(async {
            let task = tokio::spawn(std::future::pending::<()>());
            task.abort();
            task.await
        })
        .expect_err("the task was cancelled");
    let text = tokio_error_to_string(&cancelled);
    assert!(text.starts_with("task "));
    assert!(text.ends_with("was cancelled"));
    assert!(matches!(task_finished(&Err(cancelled)), Event::Failed(_)));
    assert!(matches!(task_finished(&Ok(())), Event::Succeeded));
}
