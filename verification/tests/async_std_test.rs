use async_dropx::{AsyncDrop, AsyncDropx};
use async_std::channel;
use std::future::Future;
use std::pin::Pin;
use std::time::Duration;

struct TestResource {
    sender: channel::Sender<()>,
}

impl AsyncDrop for TestResource {
    type Dropper = Pin<Box<dyn Future<Output = ()> + Send>>;

    fn produces_without_panic() -> bool {
        true
    }

    fn async_drop(self) -> Self::Dropper {
        let sender = self.sender.clone();
        Box::pin(async move {
            async_std::task::sleep(Duration::from_millis(10)).await;
            let _ = sender.send(()).await;
        })
    }
}

#[test]
fn test_async_drop_runs_async_std() {
    async_std::task::block_on(async {
        let (sender, receiver) = channel::bounded(1);

        {
            let resource = TestResource { sender };
            let _wrapper = AsyncDropx::new(resource);
            // wrapper goes out of scope here
        }

        // Wait for the drop to happen
        let result = async_std::future::timeout(Duration::from_secs(1), receiver.recv()).await;

        assert!(result.is_ok(), "Async drop did not complete in time");
    });
}
