use std::sync::atomic::AtomicUsize;
use std::sync::atomic::Ordering;
use tunlib::serializer::worker_name;
use tunlib::serializer::Serializer;
use tunlib::serializer::SerializerError;
use tunlib::serializer::WORKER_THREADS;

#[test]
fn run_returns_what_the_closure_returns() {
    let serializer = Serializer::new().unwrap();
    let a = 20;
    assert_eq!(serializer.run(|| a + 22), 42);
    assert_eq!(serializer.run(|| String::from("done")), "done");
}

#[test]
fn run_passes_errors_through_as_values() {
    let serializer = Serializer::new().unwrap();
    let failed: Result<u8, i8> = serializer.run(|| Err(-13));
    assert_eq!(failed, Err(-13));
    let fine: Result<u8, i8> = serializer.run(|| Ok(7));
    assert_eq!(fine, Ok(7));
}

#[test]
fn run_executes_on_the_one_worker() {
    assert_eq!(WORKER_THREADS, 1);
    let serializer = Serializer::new().unwrap();
    assert_eq!(rayon::current_thread_index(), None);
    assert_eq!(serializer.run(|| rayon::current_thread_index()), Some(0));
    assert_eq!(serializer.run(|| rayon::current_num_threads()), 1);
    assert_eq!(rayon::current_thread_index(), None);
}

#[test]
fn runs_see_each_other_in_order() {
    let serializer = Serializer::new().unwrap();
    let counter = AtomicUsize::new(0);
    let mut i = 0;
    while i < 100 {
        let seen = serializer.run(|| counter.fetch_add(1, Ordering::SeqCst));
        assert_eq!(seen, i);
        i += 1;
    }
    assert_eq!(counter.load(Ordering::SeqCst), 100);
}

#[test]
fn worker_thread_is_named() {
    assert_eq!(worker_name(0), "lwip-TCP-0");
    assert_eq!(worker_name(12), "lwip-TCP-12");
    assert_eq!(worker_name(1000), "lwip-TCP-1000");
}

#[test]
fn a_built_pool_is_taken_over() {
    let built = rayon::ThreadPoolBuilder::new().num_threads(1).build();
    assert!(built.is_ok());
    let serializer = match Serializer::from_built(built) {
        Ok(serializer) => serializer,
        Err(error) => panic!("no serializer: {:?}", error),
    };
    assert_eq!(serializer.workers(), 1);
    assert_eq!(serializer.run(|| 6 * 7), 42);
}

#[test]
fn a_failed_build_is_passed_on() {
    // The global pool can be set up once; the second attempt is an error.
    let first = rayon::ThreadPoolBuilder::new().num_threads(1).build_global();
    assert!(first.is_ok());
    let second = rayon::ThreadPoolBuilder::new().num_threads(1).build_global();
    let error = match second {
        Ok(()) => panic!("the global pool was set up twice"),
        Err(error) => error,
    };
    let text = format!("{:?}", error);
    let built: Result<rayon::ThreadPool, rayon::ThreadPoolBuildError> = Err(error);
    match Serializer::from_built(built) {
        Ok(_) => panic!("a serializer without a pool"),
        Err(SerializerError::Spawn(passed_on)) => assert_eq!(format!("{:?}", passed_on), text),
        Err(other) => panic!("another error: {:?}", other),
    }
}

#[test]
fn a_new_serializer_has_one_worker() {
    let serializer = Serializer::new().unwrap();
    assert_eq!(serializer.workers(), WORKER_THREADS);
    assert_eq!(serializer.workers(), 1);
    assert_eq!(serializer.run(|| rayon::current_num_threads()), 1);
}

#[test]
fn a_pool_of_several_threads_is_refused() {
    let built = rayon::ThreadPoolBuilder::new().num_threads(3).build();
    assert!(built.is_ok());
    match Serializer::from_built(built) {
        Ok(_) => panic!("a serializer of three workers"),
        Err(SerializerError::Workers { found }) => assert_eq!(found, 3),
        Err(other) => panic!("another error: {:?}", other),
    }
}

#[test]
fn from_pool_goes_by_the_reported_count() {
    let pool = rayon::ThreadPoolBuilder::new().num_threads(1).build().unwrap();
    match Serializer::from_pool(pool, 1) {
        Ok(serializer) => {
            assert_eq!(serializer.workers(), 1);
            assert_eq!(serializer.run(|| 5), 5);
        }
        Err(error) => panic!("no serializer: {:?}", error),
    }
    let pool = rayon::ThreadPoolBuilder::new().num_threads(1).build().unwrap();
    match Serializer::from_pool(pool, 0) {
        Err(SerializerError::Workers { found }) => assert_eq!(found, 0),
        _ => panic!("a count of zero was taken"),
    }
    let pool = rayon::ThreadPoolBuilder::new().num_threads(1).build().unwrap();
    match Serializer::from_pool(pool, 2) {
        Err(SerializerError::Workers { found }) => assert_eq!(found, 2),
        _ => panic!("a count of two was taken"),
    }
}
