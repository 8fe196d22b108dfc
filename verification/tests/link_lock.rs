use std::sync::Arc;
use std::time::Duration;

use mgw_generic::link::{acquire, Acquire};
use tokio::sync::{Mutex, OwnedMutexGuard};
use tokio::time::timeout;

const SHORT: Duration = Duration::from_millis(50);

fn runtime() -> tokio::runtime::Runtime {
    tokio::runtime::Builder::new_current_thread().enable_time().build().unwrap()
}

async fn take(link: Option<Arc<Mutex<Vec<u16>>>>) -> (Acquire, Option<OwnedMutexGuard<Vec<u16>>>) {
    let published = link.is_some();
    let session = match link {
        Some(link) => timeout(SHORT, link.lock_owned()).await.ok(),
        None => None,
    };
    (acquire(published, session.is_some()), session)
}

#[test]
fn link_is_held_by_one_consumer_at_a_time() {
    runtime().block_on(async {
        let link = Arc::new(Mutex::new(Vec::new()));

        let (first, session) = take(Some(Arc::clone(&link))).await;
        assert_eq!(first, Acquire::ExclusiveSession);

        let (second, refused) = take(Some(Arc::clone(&link))).await;
        assert_eq!(second, Acquire::TimedOut);
        assert!(refused.is_none());

        drop(session);
        let (third, session) = take(Some(Arc::clone(&link))).await;
        assert_eq!(third, Acquire::ExclusiveSession);
        assert!(session.is_some());
    });
}

#[test]
fn link_that_is_not_published_is_unavailable_at_once() {
    runtime().block_on(async {
        let (outcome, session) = take(None).await;
        assert_eq!(outcome, Acquire::Unavailable);
        assert!(session.is_none());
    });
}

#[test]
fn link_operations_of_two_consumers_do_not_interleave() {
    runtime().block_on(async {
        let link = Arc::new(Mutex::new(Vec::new()));
        let mut tasks = Vec::new();
        for consumer in 0..2u16 {
            let link = Arc::clone(&link);
            tasks.push(tokio::spawn(async move {
                for _ in 0..20 {
                    let mut session = link.lock().await;
                    session.push(consumer);
                    tokio::task::yield_now().await;
                    session.push(consumer);
                }
            }));
        }
        for task in tasks {
            task.await.unwrap();
        }
        let log = link.lock().await;
        assert_eq!(log.len(), 80);
        for pair in log.chunks(2) {
            assert_eq!(pair[0], pair[1]);
        }
    });
}
