use std::future::Future;
use std::time::{Duration, Instant};

use retry_macro::{RetryError, RetryState, Step};

#[derive(Debug)]
struct TestError;

async fn failing_function_async(_arg1: i32, _arg2: i32) -> Result<i32, TestError> {
    tokio::time::sleep(Duration::from_millis(1)).await;
    Err(TestError)
}

async fn drive<R, E, Fut: Future<Output = Result<R, E>>>(
    retries: usize,
    time_ms: Option<u64>,
    f: impl Fn() -> Fut,
) -> Result<R, RetryError<E>> {
    let mut step = RetryState::start(retries);
    loop {
        step = match step {
            Step::Attempt(s) => s.record(f().await),
            Step::Failed(s) => {
                if let Some(ms) = time_ms {
                    tokio::time::sleep(Duration::from_millis(ms)).await;
                }
                s.resume()
            }
            Step::Succeeded(v) => return Ok(v),
            Step::Exhausted(e) => return Err(e),
        }
    }
}

fn block_on<T>(fut: impl Future<Output = T>) -> T {
    tokio::runtime::Builder::new_current_thread()
        .enable_time()
        .build()
        .unwrap()
        .block_on(fut)
}

#[test]
fn test_fail_function_async() {
    block_on(async {
        let var1 = 1;
        let var2 = 2;
        let actual = drive(3, None, || failing_function_async(var1, var2)).await;
        assert!(actual.is_err());
        assert_eq!(actual.unwrap_err().retries.len(), 3);
    });
}

#[test]
fn test_fail_function_async_w_sleep() {
    block_on(async {
        let var1 = 1;
        let var2 = 2;
        let start_time = Instant::now();
        let actual = drive(2, Some(100), || failing_function_async(var1, var2)).await;
        let elapsed = start_time.elapsed().as_millis();
        assert!(elapsed >= 200);
        assert!(actual.is_err());
        assert_eq!(actual.unwrap_err().retries.len(), 2);
    });
}
