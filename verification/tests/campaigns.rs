use zeroclaw::campaign::{
    resolve_interval, Campaign, CampaignConfig, CampaignError, CampaignManager, CampaignStatus,
};

fn config(name: &str) -> CampaignConfig {
    let mut c = CampaignConfig::default();
    c.name = name.to_string();
    c.symbols = vec!["BTCUSDT".to_string(), "ETHUSDT".to_string(), "BTCUSDT".to_string()];
    c.symbol_intervals = vec![("ETHUSDT".to_string(), "5m".to_string())];
    c
}

#[test]
fn intervals_resolve_per_symbol() {
    let c = config("a");
    assert_eq!(resolve_interval(&c, "ETHUSDT"), "5m");
    assert_eq!(resolve_interval(&c, "BTCUSDT"), "1m");
    let campaign = Campaign::new(c);
    assert_eq!(campaign.status, CampaignStatus::Created);
    assert_eq!(campaign.symbol_states.len(), 2);
}

#[test]
fn registry_lifecycle() {
    let mut m = CampaignManager::new();
    assert_eq!(m.create_campaign(config("alpha")).ok(), Some("alpha".to_string()));
    match m.create_campaign(config("alpha")) {
        Err(e) => assert_eq!(e.message(), "Campaign 'alpha' already exists"),
        Ok(_) => panic!("duplicate accepted"),
    }
    assert!(m.start_campaign("alpha").is_ok());
    assert_eq!(m.get_campaign_status("alpha"), Some(CampaignStatus::Running));
    assert!(m.stop_campaign("alpha").is_ok());
    assert_eq!(m.get_campaign_status("alpha"), Some(CampaignStatus::Stopped));
    assert_eq!(m.list_campaigns(), vec!["alpha".to_string()]);
    assert!(m.delete_campaign("alpha").is_ok());
    assert_eq!(m.get_campaign_status("alpha"), None);
    match m.start_campaign("alpha") {
        Err(CampaignError::NotFound(n)) => assert_eq!(n, "alpha"),
        _ => panic!("missing campaign started"),
    }
    assert!(m.get_campaign("alpha").is_none());
}

#[test]
fn listed_names_are_refused_on_create() {
    let mut m = CampaignManager::new();
    assert!(m.create_campaign(config("alpha")).is_ok());
    assert!(m.create_campaign(config("beta")).is_ok());
    assert!(m.start_campaign("beta").is_ok());
    let listed = m.list_campaigns();
    assert_eq!(listed, vec!["alpha".to_string(), "beta".to_string()]);
    for name in &listed {
        assert!(m.create_campaign(config(name)).is_err());
    }
    // Refusals change neither the listing nor any status.
    assert_eq!(m.list_campaigns(), listed);
    assert_eq!(m.get_campaign_status("alpha"), Some(CampaignStatus::Created));
    assert_eq!(m.get_campaign_status("beta"), Some(CampaignStatus::Running));
    assert_eq!(m.create_campaign(config("gamma")).ok(), Some("gamma".to_string()));
    assert_eq!(m.get_campaign_status("gamma"), Some(CampaignStatus::Created));
    assert_eq!(m.get_campaign_status("beta"), Some(CampaignStatus::Running));
}
