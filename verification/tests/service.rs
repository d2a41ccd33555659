use basin_admin::BasinService;
use s2::client::{BasinClient, ClientConfig};

#[test]
fn service_hands_out_the_client_it_was_made_with() {
    let runtime = tokio::runtime::Builder::new_current_thread().enable_all().build().unwrap();
    let _context = runtime.enter();
    let client = BasinClient::new(ClientConfig::new("token"), "my-basin".parse().unwrap());
    let described = format!("{:?}", client);
    let service = BasinService::new(client);
    assert_eq!(format!("{:?}", service.client()), described);
}
