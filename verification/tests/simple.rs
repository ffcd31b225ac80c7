use baatzan::{Lock, Storage, ThreadLocal, ThreadState, TxMap};
use std::sync::Arc;

struct OwnState<T>(T);
struct StaticArray<T>([Arc<T>; 4]);

impl<T> ThreadLocal<T> for OwnState<T> {
    fn with<F, R>(&self, f: F) -> R
    where
        F: FnOnce(&T) -> R,
    {
        f(&self.0)
    }
}

impl<T> Storage<T> for StaticArray<T> {
    type Key = usize;

    fn get(&self, key: &Self::Key) -> Option<Arc<T>> {
        self.0.get(*key).cloned()
    }

    fn remove(&self, _key: &Self::Key) -> Option<Arc<T>> {
        None
    }
}

#[test]
fn test_simple() {
    let map = TxMap::unchecked_new(
        OwnState(ThreadState::default()),
        StaticArray([
            Arc::new(Lock::new(0)),
            Arc::new(Lock::new(1)),
            Arc::new(Lock::new(2)),
            Arc::new(Lock::new(3)),
        ]),
    );

    let map = Arc::new(map);

    map.transaction(|map| {
        let val = map.get(&0).unwrap();
        assert_eq!(*val, 0);
        drop(val);

        let mut val = map.get_mut(&1).unwrap();
        *val = 4;
    });

    map.transaction(|map| {
        let val = map.get(&1).unwrap();
        assert_eq!(*val, 4);
    });
}
