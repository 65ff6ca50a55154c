use meal_ledger::ledger::Donation;
use meal_ledger::ledger::DonationMealServiceContract;
use meal_ledger::ledger::MealService;
use meal_ledger::ledger::LEASE_WINDOW;

#[test]
fn default_state_before_any_mutation() {
    let c = DonationMealServiceContract::new();
    let status = c.get_service_status();
    assert_eq!(status, MealService { meals_served: 0, funds_collected: 0 });
    assert!(c.latest_donation().is_none());
    assert_eq!(c.lease(), 0);
}

#[test]
fn donation_accumulation() {
    let mut c = DonationMealServiceContract::new();
    c.donate(String::from("ann"), 10, String::from("first"));
    c.donate(String::from("ben"), 25, String::from("second"));
    c.donate(String::from("cay"), 7, String::from("third"));
    let status = c.get_service_status();
    assert_eq!(status.funds_collected, 42);
    assert_eq!(status.meals_served, 0);
}

#[test]
fn meal_accumulation() {
    let mut c = DonationMealServiceContract::new();
    c.serve_meals(4);
    c.serve_meals(0);
    c.serve_meals(9);
    let status = c.get_service_status();
    assert_eq!(status.meals_served, 13);
    assert_eq!(status.funds_collected, 0);
}

#[test]
fn serve_meals_never_alters_funds() {
    let mut c = DonationMealServiceContract::new();
    c.donate(String::from("ann"), 300, String::from("keep it"));
    c.serve_meals(12);
    c.serve_meals(5);
    let status = c.get_service_status();
    assert_eq!(status.funds_collected, 300);
    assert_eq!(status.meals_served, 17);
    let d = c.latest_donation().as_ref().unwrap();
    assert_eq!(d.donor, "ann");
    assert_eq!(d.amount, 300);
    assert_eq!(d.message, "keep it");
}

#[test]
fn donate_never_alters_meals() {
    let mut c = DonationMealServiceContract::new();
    c.serve_meals(8);
    c.donate(String::from("ben"), 50, String::new());
    let status = c.get_service_status();
    assert_eq!(status.meals_served, 8);
    assert_eq!(status.funds_collected, 50);
}

#[test]
fn donation_overwrite_keeps_only_the_latest() {
    let mut c = DonationMealServiceContract::new();
    c.donate(String::from("first donor"), 11, String::from("first message"));
    c.donate(String::from("second donor"), 22, String::from("second message"));
    let d = c.latest_donation().as_ref().unwrap();
    assert_eq!(d.donor, "second donor");
    assert_eq!(d.amount, 22);
    assert_eq!(d.message, "second message");
    assert_eq!(c.get_service_status().funds_collected, 33);
}

#[test]
fn repeated_reads_are_idempotent() {
    let mut c = DonationMealServiceContract::new();
    c.donate(String::from("ann"), 9, String::new());
    let lease_before = c.lease();
    let first = c.get_service_status();
    let second = c.get_service_status();
    let third = c.get_service_status();
    assert_eq!(first, second);
    assert_eq!(second, third);
    assert_eq!(c.lease(), lease_before);
}

#[test]
fn scenario_two_donors_and_a_serving() {
    let mut c = DonationMealServiceContract::new();
    c.donate(String::from("alice"), 100, String::from("for lunch"));
    assert_eq!(
        c.get_service_status(),
        MealService { meals_served: 0, funds_collected: 100 },
    );
    c.serve_meals(3);
    assert_eq!(
        c.get_service_status(),
        MealService { meals_served: 3, funds_collected: 100 },
    );
    c.donate(String::from("bob"), 50, String::new());
    assert_eq!(
        c.get_service_status(),
        MealService { meals_served: 3, funds_collected: 150 },
    );
    let d = c.latest_donation().as_ref().unwrap();
    assert_eq!(d.donor, "bob");
    assert_eq!(d.amount, 50);
}

#[test]
fn mutations_slide_the_lease_out() {
    let mut c = DonationMealServiceContract::new();
    c.donate(String::from("ann"), 1, String::new());
    assert_eq!(c.lease(), LEASE_WINDOW);
    let c2 = DonationMealServiceContract::from_storage(None, None, 3);
    assert_eq!(c2.lease(), 3);
    let mut c3 = DonationMealServiceContract::from_storage(None, None, 3);
    c3.serve_meals(2);
    assert_eq!(c3.lease(), LEASE_WINDOW);
}

#[test]
fn from_storage_restores_the_aggregate() {
    let stored = MealService { meals_served: 40, funds_collected: 900 };
    let log = Donation {
        donor: String::from("old donor"),
        amount: 900,
        message: String::from("kept"),
    };
    let mut c = DonationMealServiceContract::from_storage(Some(stored), Some(log), 120);
    assert_eq!(c.get_service_status(), stored);
    assert_eq!(c.latest_donation().as_ref().unwrap().donor, "old donor");
    c.donate(String::from("new donor"), 100, String::new());
    assert_eq!(
        c.get_service_status(),
        MealService { meals_served: 40, funds_collected: 1000 },
    );
    let d = c.latest_donation().as_ref().unwrap();
    assert_eq!(d.donor, "new donor");
}

#[test]
fn totals_can_reach_the_full_range() {
    let mut c = DonationMealServiceContract::new();
    c.donate(String::new(), u64::MAX, String::new());
    assert_eq!(c.get_service_status().funds_collected, u64::MAX);
    let mut c2 = DonationMealServiceContract::new();
    c2.serve_meals(u64::MAX);
    assert_eq!(c2.get_service_status().meals_served, u64::MAX);
}
