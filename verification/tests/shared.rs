use std::sync::Arc;

use post_service::response::Response;
use post_service::router::{begin, finish, Step};
use post_service::store::RecordStore;
use post_service::templates::TemplateRegistry;
use tokio::sync::Mutex;

async fn serve(
    method: &str,
    path: &str,
    body: &[u8],
    templates: &TemplateRegistry,
    store: &Mutex<RecordStore>,
) -> Response {
    match begin(method, path, body, templates) {
        Step::Done(response) => response,
        Step::Ask(asked) => {
            let answer = store.lock().await.perform(&asked);
            finish(answer, templates)
        }
    }
}

#[test]
fn parallel_creates_get_distinct_identifiers_and_no_post_is_lost() {
    let runtime = tokio::runtime::Builder::new_multi_thread()
        .worker_threads(4)
        .build()
        .expect("a runtime starts");
    runtime.block_on(async {
        let templates = Arc::new(TemplateRegistry::standard().expect("the templates compile"));
        let store = Arc::new(Mutex::new(
            RecordStore::open_in_memory().expect("a store opens in memory"),
        ));
        let mut tasks = Vec::new();
        for number in 0..32 {
            let store = store.clone();
            let templates = templates.clone();
            tasks.push(tokio::spawn(async move {
                let body = format!("title=title+{}&content=content+{}", number, number);
                (number, serve("POST", "/posts", body.as_bytes(), &templates, &store).await)
            }));
        }
        let mut created = Vec::new();
        for task in tasks {
            let (number, response) = task.await.expect("the task ends");
            assert_eq!(response.status, 200);
            created.push((number, response.body));
        }
        for (index, (_, identifier)) in created.iter().enumerate() {
            for (_, other) in created.iter().skip(index + 1) {
                assert_ne!(identifier, other);
            }
        }
        for (number, identifier) in created {
            let lookup = format!("post_id={}", identifier);
            let found = serve("GET", "/posts/", lookup.as_bytes(), &templates, &store).await;
            assert_eq!(found.status, 200);
            assert_eq!(
                found.body,
                format!("id: {}\ntitle: title {}\ncontent: content {}", identifier, number, number)
            );
        }
    });
}
