use canvas_contracts::baals::BaalsClient;
use canvas_contracts::config::Config;

#[test]
fn test_baals_client_creation() {
    let config = Config::default();
    let client = BaalsClient::new(&config);
    assert!(client.is_ok());
}
