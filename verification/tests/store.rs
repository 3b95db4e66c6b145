use ad_marketplace::errors::AppErrorType;
use ad_marketplace::ids::has_random_form;
use ad_marketplace::models::ad::{Ad, AdStatus, AdStatusUpdate};
use ad_marketplace::models::address::Address;
use ad_marketplace::models::business::{Business, BusinessInfo};
use ad_marketplace::models::category::{AdCategory, BusinessCategory, Category};
use ad_marketplace::models::income::Income;
use ad_marketplace::models::payment::{Payment, PaymentData};
use ad_marketplace::models::screen::{Screen, ScreenDataWithAddress};
use ad_marketplace::models::user::User;
use ad_marketplace::models::Keyed;
use ad_marketplace::store::ad::{ties_of, CreateAd, GetAllAds, GetUserAds, UpdateAd};
use ad_marketplace::store::ad_order::{ApproveAdOrder, CreateAdOrder};
use ad_marketplace::store::address::{CreateAddress, GetAllAddresses, UpdateAddress};
use ad_marketplace::store::admin::CreateAdmin;
use ad_marketplace::store::business::{
    ChangeBusinessInfo, CreateBusiness, GetAllBusinesses, GetBusinessCategories,
    GetBusinessesInfo,
};
use ad_marketplace::store::category::{CreateCategory, GetAllCategories, UpdateCategory};
use ad_marketplace::store::screens::{
    contains_id, is_in_one_of, CreateScreen, GetAllScreens, GetAllScreensByBusinessId,
    GetOptimalScreens, GetScreenDataById, UpdateScreen,
};
use ad_marketplace::store::user::{ChangeImg, CreateUser};
use ad_marketplace::store::{duplicate, not_found, violation, Store};
use ad_marketplace::table::Table;

fn income(id: u128, amount: u64) -> Income {
    Income { income_id: id, income: amount, business_id: 1, ad_order_id: 1 }
}

fn screen(id: u128, business_id: u128, traffic: i32, price: u64) -> Screen {
    Screen {
        screen_id: id,
        screen_name: format!("screen {}", id),
        price_per_time: price,
        characteristics: String::new(),
        traffic,
        business_id,
        address_id: 1,
    }
}

fn ids(screens: &[Screen]) -> Vec<u128> {
    screens.iter().map(|s| s.screen_id).collect()
}

fn new_screen(name: &str, business_id: u128) -> CreateScreen {
    CreateScreen {
        name: name.to_string(),
        price_per_time: 120,
        characteristics: "wide".to_string(),
        traffic: 900,
        business_id,
        address_id: 3,
    }
}

fn new_ad(name: &str, categories: Vec<u128>) -> CreateAd {
    CreateAd {
        ad_name: name.to_string(),
        img_url: "ad.png".to_string(),
        user_id: 5,
        categories_id: categories,
    }
}

#[test]
fn a_table_keeps_rows_in_order_and_refuses_a_second_row_under_one_identifier() {
    let mut table: Table<Income> = Table::new();
    assert_eq!(table.len(), 0);
    assert!(table.insert(income(1, 10)));
    assert!(table.insert(income(2, 20)));
    assert!(!table.insert(income(1, 30)));
    assert_eq!(table.rows(), &vec![income(1, 10), income(2, 20)]);
    assert_eq!(table.len(), 2);
    table.identifiers_are_distinct();
    assert_eq!(income(2, 20).id(), 2);
}

#[test]
fn a_table_finds_and_replaces_rows_by_their_identifiers() {
    let mut table: Table<Income> = Table::new();
    assert!(table.insert(income(1, 10)));
    assert!(table.insert(income(2, 20)));
    assert!(table.insert(income(3, 30)));
    assert_eq!(table.position(2), Some(1));
    assert_eq!(table.position(4), None);
    assert_eq!(table.get(3), Some(&income(3, 30)));
    assert_eq!(table.get(4), None);
    assert!(table.contains(1));
    assert!(!table.contains(0));
    assert!(table.replace(income(2, 25)));
    assert!(!table.replace(income(4, 45)));
    assert_eq!(table.rows(), &vec![income(1, 10), income(2, 25), income(3, 30)]);
}

#[test]
fn the_failures_of_the_store_say_what_the_database_would() {
    let missing = not_found();
    assert_eq!(missing.error_type, AppErrorType::DbError);
    assert_eq!(missing.message, None);
    assert_eq!(missing.cause.as_deref(), Some("Record not found"));
    let taken = duplicate();
    assert_eq!(taken.error_type, AppErrorType::DbError);
    assert_eq!(taken.cause.as_deref(), Some("duplicate key value violates unique constraint"));
    let unfit = violation();
    assert_eq!(unfit.error_type, AppErrorType::DbError);
    assert_eq!(unfit.message, None);
    assert_eq!(unfit.cause.as_deref(), Some("new row violates check constraint"));
}

#[test]
fn screens_are_put_in_changed_and_listed() {
    let mut store = Store::new();
    let first = store.create_screen(new_screen("first", 1)).unwrap();
    assert!(has_random_form(first.screen_id));
    assert_eq!(first.screen_name, "first");
    assert_eq!(first.price_per_time, 120);
    assert_eq!(first.characteristics, "wide");
    assert_eq!(first.traffic, 900);
    assert_eq!(first.business_id, 1);
    assert_eq!(first.address_id, 3);
    let second = store.create_screen_as(new_screen("second", 2), 77).unwrap();
    assert_eq!(second.screen_id, 77);
    let refused = store.create_screen_as(new_screen("third", 2), 77).unwrap_err();
    assert_eq!(refused.error_type, AppErrorType::DbError);
    assert_eq!(ids(&store.get_all_screens(GetAllScreens {})), vec![first.screen_id, 77]);

    let changed = store
        .update_screen(UpdateScreen {
            id: 77,
            name: "renamed".to_string(),
            price_per_time: 5,
            characteristics: "small".to_string(),
            traffic: 1,
        })
        .unwrap();
    assert_eq!(changed.screen_id, 77);
    assert_eq!(changed.screen_name, "renamed");
    assert_eq!(changed.price_per_time, 5);
    assert_eq!(changed.characteristics, "small");
    assert_eq!(changed.traffic, 1);
    assert_eq!(changed.business_id, 2);
    assert_eq!(changed.address_id, 3);
    assert_eq!(store.screens.get(77).unwrap().screen_name, "renamed");
    assert_eq!(store.screens.len(), 2);

    let missing = store
        .update_screen(UpdateScreen {
            id: 78,
            name: String::new(),
            price_per_time: 5,
            characteristics: String::new(),
            traffic: 1,
        })
        .unwrap_err();
    assert_eq!(missing.error_type, AppErrorType::DbError);
    assert_eq!(missing.cause.as_deref(), Some("Record not found"));

    let of_second =
        store.get_all_screens_by_business_id(GetAllScreensByBusinessId { business_id: 2 });
    assert_eq!(ids(&of_second), vec![77]);
    let of_nobody =
        store.get_all_screens_by_business_id(GetAllScreensByBusinessId { business_id: 9 });
    assert!(of_nobody.is_empty());
}

#[test]
fn a_screen_is_shown_with_the_name_of_its_address_if_both_are_there() {
    let mut store = Store::new();
    assert!(store.screens.insert(screen(1, 7, 100, 10)));
    assert!(store.get_screen_data_by_id(GetScreenDataById { screen_id: 1 }).is_none());
    assert!(store.addresses.insert(Address {
        address_id: 1,
        address_name: "Main Street 1".to_string(),
        business_id: 7,
    }));
    let shown = store.get_screen_data_by_id(GetScreenDataById { screen_id: 1 }).unwrap();
    assert_eq!(shown.screen_id, 1);
    assert_eq!(shown.screen_name, "screen 1");
    assert_eq!(shown.price_per_time, 10);
    assert_eq!(shown.traffic, 100);
    assert_eq!(shown.address_name, "Main Street 1");
    assert_eq!(shown.business_id, 7);
    assert!(store.get_screen_data_by_id(GetScreenDataById { screen_id: 2 }).is_none());
    let made = ScreenDataWithAddress::of(&screen(4, 5, 6, 7), "here".to_string());
    assert_eq!(made.screen_id, 4);
    assert_eq!(made.address_name, "here");
}

#[test]
fn a_budget_is_spent_on_the_screens_of_businesses_in_the_categories_asked_for() {
    let mut store = Store::new();
    // Business 1 is in category 10, business 2 in 20, business 3 in none.
    store.business_categories.push(BusinessCategory { category_id: 10, business_id: 1 });
    store.business_categories.push(BusinessCategory { category_id: 20, business_id: 2 });
    for s in [
        screen(1, 1, 1000, 100),
        screen(2, 2, 9000, 100),
        screen(3, 1, 500, 50),
        screen(4, 3, 9000, 10),
        screen(5, 1, 2000, 1000),
    ] {
        assert!(store.screens.insert(s));
    }
    assert_eq!(ids(&store.query_screens_by_categories(&vec![10])), vec![1, 3, 5]);
    assert_eq!(ids(&store.query_screens_by_categories(&vec![20, 10])), vec![1, 2, 3, 5]);
    assert!(store.query_screens_by_categories(&vec![30]).is_empty());
    assert!(store.query_screens_by_categories(&vec![]).is_empty());

    let chosen = store
        .find_optimal_screens(GetOptimalScreens { user_budget: 150, ad_category_ids: vec![10] });
    assert_eq!(ids(&chosen), vec![1, 3]);
    let chosen = store.find_optimal_screens(GetOptimalScreens {
        user_budget: 150,
        ad_category_ids: vec![10, 20],
    });
    assert_eq!(ids(&chosen), vec![2, 3]);
    let chosen = store
        .find_optimal_screens(GetOptimalScreens { user_budget: 150, ad_category_ids: vec![] });
    assert!(chosen.is_empty());
    assert_eq!(store.screens.len(), 5);

    assert!(contains_id(&vec![1, 2, 3], 2));
    assert!(!contains_id(&vec![1, 2, 3], 4));
    assert!(is_in_one_of(&store.business_categories, &vec![20], 2));
    assert!(!is_in_one_of(&store.business_categories, &vec![20], 1));
}

#[test]
fn an_ad_is_put_in_unverified_together_with_its_ties() {
    let mut store = Store::new();
    store.ad_categories.push(AdCategory { category_id: 1, ad_id: 1 });
    let ad = store.create_ad(new_ad("poster", vec![10, 20])).unwrap();
    assert!(has_random_form(ad.ad_id));
    assert_eq!(ad.ad_name, "poster");
    assert_eq!(ad.img_url, "ad.png");
    assert_eq!(ad.user_id, 5);
    assert_eq!(ad.status, "Unverified");
    assert!(ad.is(AdStatus::Unverified));
    assert_eq!(store.ads.len(), 1);
    assert_eq!(
        store.ad_categories,
        vec![
            AdCategory { category_id: 1, ad_id: 1 },
            AdCategory { category_id: 10, ad_id: ad.ad_id },
            AdCategory { category_id: 20, ad_id: ad.ad_id },
        ]
    );
    assert_eq!(
        ties_of(3, &vec![7, 8]),
        vec![AdCategory { category_id: 7, ad_id: 3 }, AdCategory { category_id: 8, ad_id: 3 }]
    );

    let (made, ties) = new_ad("banner", vec![9]).into_ad(11).unwrap();
    assert_eq!(made.ad_id, 11);
    assert_eq!(made.ad_name, "banner");
    assert_eq!(made.status, "Unverified");
    assert_eq!(ties, vec![AdCategory { category_id: 9, ad_id: 11 }]);
    assert!(new_ad("banner", vec![]).into_ad(11).is_err());
}

#[test]
fn an_ad_without_a_category_or_under_a_taken_identifier_leaves_nothing_behind() {
    let mut store = Store::new();
    let error = store.create_ad(new_ad("poster", vec![])).unwrap_err();
    assert_eq!(error.error_type, AppErrorType::DbError);
    assert_eq!(error.cause.as_deref(), Some("Record not found"));
    assert_eq!(store.ads.len(), 0);
    assert!(store.ad_categories.is_empty());

    assert!(store.create_ad_as(new_ad("first", vec![1]), 4).is_ok());
    let error = store.create_ad_as(new_ad("second", vec![2, 3]), 4).unwrap_err();
    assert_eq!(error.error_type, AppErrorType::DbError);
    assert_eq!(error.cause.as_deref(), Some("duplicate key value violates unique constraint"));
    assert_eq!(store.ads.len(), 1);
    assert_eq!(store.ad_categories, vec![AdCategory { category_id: 1, ad_id: 4 }]);
}

#[test]
fn an_ad_can_be_booked_only_once_an_administrator_has_approved_it() {
    let mut store = Store::new();
    let ad = store.create_ad(new_ad("poster", vec![10])).unwrap();
    let asked = CreateAdOrder {
        start_time: 1,
        end_time: 2,
        price: 3,
        ad_id: ad.ad_id,
        screen_id: 1,
    };
    assert_eq!(
        store.create_ad_order(asked).unwrap_err().error_type,
        AppErrorType::UnverifiedAdError
    );
    let rejected = store
        .change_ad_status(AdStatusUpdate { ad_id: ad.ad_id, new_status: AdStatus::Rejected })
        .unwrap();
    assert_eq!(rejected.status, "Rejected");
    assert_eq!(rejected.ad_name, "poster");
    assert_eq!(
        store.create_ad_order(asked).unwrap_err().error_type,
        AppErrorType::RejectedAdError
    );
    let approved = store
        .change_ad_status(AdStatusUpdate { ad_id: ad.ad_id, new_status: AdStatus::Approved })
        .unwrap();
    assert_eq!(approved.status, "Approved");
    assert!(store.create_ad_order(asked).is_ok());
    assert_eq!(store.ads.len(), 1);

    let missing = store
        .change_ad_status(AdStatusUpdate { ad_id: 1, new_status: AdStatus::Approved })
        .unwrap_err();
    assert_eq!(missing.error_type, AppErrorType::DbError);
    assert_eq!(AdStatus::Unverified.to_string(), "Unverified");
    assert_eq!(AdStatus::Approved.to_string(), "Approved");
    assert_eq!(AdStatus::Rejected.to_string(), "Rejected");
}

#[test]
fn ads_are_changed_and_listed() {
    let mut store = Store::new();
    assert!(store.create_ad_as(new_ad("first", vec![1]), 1).is_ok());
    assert!(store.create_ad_as(new_ad("second", vec![1]), 2).is_ok());
    let changed = store
        .update_ad(UpdateAd {
            id: 2,
            ad_name: "renamed".to_string(),
            img_url: "new.png".to_string(),
            user_id: 6,
        })
        .unwrap();
    assert_eq!(changed.ad_id, 2);
    assert_eq!(changed.ad_name, "renamed");
    assert_eq!(changed.img_url, "new.png");
    assert_eq!(changed.user_id, 6);
    assert_eq!(changed.status, "Unverified");
    let missing = store
        .update_ad(UpdateAd { id: 3, ad_name: String::new(), img_url: String::new(), user_id: 6 })
        .unwrap_err();
    assert_eq!(missing.cause.as_deref(), Some("Record not found"));

    let all: Vec<String> =
        store.get_all_ads(GetAllAds {}).into_iter().map(|ad: Ad| ad.ad_name).collect();
    assert_eq!(all, vec!["first", "renamed"]);
    let of_five = store.get_user_ads(GetUserAds { user_id: 5 });
    assert_eq!(of_five.len(), 1);
    assert_eq!(of_five[0].ad_id, 1);
    assert!(store.get_user_ads(GetUserAds { user_id: 7 }).is_empty());
}

#[test]
fn categories_and_addresses_are_put_in_renamed_and_listed() {
    let mut store = Store::new();
    let food = store.create_category(CreateCategory { name: "food".to_string() }).unwrap();
    assert!(has_random_form(food.category_id));
    assert_eq!(food.category_name, "food");
    assert!(store.create_category_as(CreateCategory { name: "cars".to_string() }, 2).is_ok());
    assert!(store.create_category_as(CreateCategory { name: "toys".to_string() }, 2).is_err());
    let renamed =
        store.update_category(UpdateCategory { id: 2, name: "bikes".to_string() }).unwrap();
    assert_eq!((renamed.category_id, renamed.category_name.as_str()), (2, "bikes"));
    assert!(store.update_category(UpdateCategory { id: 3, name: String::new() }).is_err());
    let names: Vec<String> = store
        .get_all_categories(GetAllCategories {})
        .into_iter()
        .map(|c: Category| c.category_name)
        .collect();
    assert_eq!(names, vec!["food", "bikes"]);

    let here = store
        .create_address(CreateAddress { name: "Main Street 1".to_string(), business_id: 7 })
        .unwrap();
    assert!(has_random_form(here.address_id));
    assert_eq!(here.business_id, 7);
    assert!(store
        .create_address_as(CreateAddress { name: "Side Street 2".to_string(), business_id: 8 }, 2)
        .is_ok());
    assert!(store
        .create_address_as(CreateAddress { name: "Back Street 3".to_string(), business_id: 8 }, 2)
        .is_err());
    let renamed =
        store.update_address(UpdateAddress { id: 2, name: "Side Street 4".to_string() }).unwrap();
    assert_eq!(renamed.address_name, "Side Street 4");
    assert_eq!(renamed.business_id, 8);
    assert!(store.update_address(UpdateAddress { id: 3, name: String::new() }).is_err());
    let names: Vec<String> = store
        .get_all_addresses(GetAllAddresses {})
        .into_iter()
        .map(|a: Address| a.address_name)
        .collect();
    assert_eq!(names, vec!["Main Street 1", "Side Street 4"]);
}

fn new_user(name: &str) -> CreateUser {
    CreateUser {
        name: name.to_string(),
        email: format!("{}@example.org", name),
        password: "plain".to_string(),
        img_url: "me.png".to_string(),
        phone_number: "123".to_string(),
    }
}

fn new_business(name: &str) -> CreateBusiness {
    CreateBusiness {
        name: name.to_string(),
        password: "plain".to_string(),
        email: format!("{}@example.com", name),
        img_url: "us.png".to_string(),
        phone_number: "456".to_string(),
    }
}

#[test]
fn users_are_kept_with_the_hash_of_their_password_and_found_by_name() {
    let mut store = Store::new();
    let ann = store.create_user(new_user("ann"), "hash of ann".to_string()).unwrap();
    assert!(has_random_form(ann.user_id));
    assert_eq!(ann.user_name, "ann");
    assert_eq!(ann.email, "ann@example.org");
    assert_eq!(ann.password, "hash of ann");
    assert_eq!(ann.img_url, "me.png");
    assert_eq!(ann.phone_number, "123");
    assert!(store.create_user_as(new_user("bob"), 2, "hash of bob".to_string()).is_ok());
    assert!(store.create_user_as(new_user("bob"), 3, "other hash".to_string()).is_ok());
    assert!(store.create_user_as(new_user("cid"), 3, "hash".to_string()).is_err());

    let found: User = store.user_named(&"bob".to_string()).unwrap();
    assert_eq!(found.user_id, 2);
    assert_eq!(found.password, "hash of bob");
    let missing = store.user_named(&"dan".to_string()).unwrap_err();
    assert_eq!(missing.error_type, AppErrorType::DbError);
    assert_eq!(missing.cause.as_deref(), Some("Record not found"));

    let url = store.change_user_img(ChangeImg { user_id: 2, img_url: "new.png".to_string() });
    assert_eq!(url, "new.png");
    assert_eq!(store.users.get(2).unwrap().img_url, "new.png");
    assert_eq!(store.users.get(2).unwrap().user_name, "bob");
    let url = store.change_user_img(ChangeImg { user_id: 9, img_url: "lost.png".to_string() });
    assert_eq!(url, "lost.png");
    assert_eq!(store.users.len(), 3);
}

#[test]
fn administrators_are_kept_and_found_by_name() {
    let mut store = Store::new();
    let root = store
        .create_admin(
            CreateAdmin { name: "root".to_string(), password: "plain".to_string() },
            "hash".to_string(),
        )
        .unwrap();
    assert!(has_random_form(root.admin_id));
    assert_eq!(root.admin_name, "root");
    assert_eq!(root.password, "hash");
    assert!(store
        .create_admin_as(
            CreateAdmin { name: "second".to_string(), password: String::new() },
            root.admin_id,
            String::new(),
        )
        .is_err());
    assert_eq!(store.admin_named(&"root".to_string()).unwrap().admin_id, root.admin_id);
    assert!(store.admin_named(&"nobody".to_string()).is_err());
}

#[test]
fn businesses_are_kept_found_and_shown_with_their_categories_and_screens() {
    let mut store = Store::new();
    let shop = store.create_business(new_business("shop"), "hash".to_string()).unwrap();
    assert!(has_random_form(shop.business_id));
    assert_eq!(shop.business_name, "shop");
    assert_eq!(shop.password, "hash");
    assert!(store.create_business_as(new_business("bar"), 2, "hash".to_string()).is_ok());
    assert!(store.create_business_as(new_business("inn"), 2, "hash".to_string()).is_err());
    assert_eq!(store.business_named(&"bar".to_string()).unwrap().business_id, 2);
    assert!(store.business_named(&"inn".to_string()).is_err());
    let names: Vec<String> = store
        .get_all_businesses(GetAllBusinesses {})
        .into_iter()
        .map(|b: Business| b.business_name)
        .collect();
    assert_eq!(names, vec!["shop", "bar"]);

    assert!(store.create_category_as(CreateCategory { name: "food".to_string() }, 10).is_ok());
    assert!(store.create_category_as(CreateCategory { name: "drink".to_string() }, 20).is_ok());
    store.business_categories.push(BusinessCategory { category_id: 20, business_id: 2 });
    store
        .business_categories
        .push(BusinessCategory { category_id: 10, business_id: shop.business_id });
    store.business_categories.push(BusinessCategory { category_id: 99, business_id: 2 });
    store.business_categories.push(BusinessCategory { category_id: 10, business_id: 2 });
    assert!(store.screens.insert(screen(1, 2, 100, 10)));
    assert!(store.screens.insert(screen(2, shop.business_id, 100, 10)));

    let tied: Vec<u128> = store
        .get_business_categories(GetBusinessCategories { business_id: 2 })
        .into_iter()
        .map(|c: Category| c.category_id)
        .collect();
    assert_eq!(tied, vec![20, 10]);

    let shown: BusinessInfo =
        store.get_businesses_info(GetBusinessesInfo { business_id: 2 }).unwrap();
    assert_eq!(shown.business_id, 2);
    assert_eq!(shown.business_name, "bar");
    assert_eq!(shown.phone_number, "456");
    assert_eq!(shown.email, "bar@example.com");
    assert_eq!(shown.categories.len(), 2);
    assert_eq!(shown.categories[0].category_name, "drink");
    assert_eq!(ids(&shown.screens), vec![1]);
    assert!(store.get_businesses_info(GetBusinessesInfo { business_id: 3 }).is_none());
}

#[test]
fn a_business_is_changed_to_what_is_shown_of_it() {
    let mut store = Store::new();
    assert!(store.create_business_as(new_business("bar"), 2, "hash".to_string()).is_ok());
    store.business_categories.push(BusinessCategory { category_id: 20, business_id: 2 });
    store.business_categories.push(BusinessCategory { category_id: 10, business_id: 1 });
    store.business_categories.push(BusinessCategory { category_id: 30, business_id: 2 });
    let shown = BusinessInfo {
        business_id: 2,
        business_name: "pub".to_string(),
        phone_number: "789".to_string(),
        email: "pub@example.com".to_string(),
        categories: vec![
            Category { category_id: 40, category_name: "beer".to_string() },
            Category { category_id: 50, category_name: "music".to_string() },
        ],
        screens: Vec::new(),
    };
    assert_eq!(
        shown.ties_made(),
        vec![
            BusinessCategory { category_id: 40, business_id: 2 },
            BusinessCategory { category_id: 50, business_id: 2 },
        ]
    );
    store.change_business_info(ChangeBusinessInfo { business_info: shown });
    let changed = store.businesses.get(2).unwrap();
    assert_eq!(changed.business_name, "pub");
    assert_eq!(changed.phone_number, "789");
    assert_eq!(changed.email, "pub@example.com");
    assert_eq!(changed.password, "hash");
    assert_eq!(changed.img_url, "us.png");
    assert_eq!(
        store.business_categories,
        vec![
            BusinessCategory { category_id: 10, business_id: 1 },
            BusinessCategory { category_id: 40, business_id: 2 },
            BusinessCategory { category_id: 50, business_id: 2 },
        ]
    );

    let unknown = BusinessInfo {
        business_id: 3,
        business_name: "none".to_string(),
        phone_number: String::new(),
        email: String::new(),
        categories: vec![Category { category_id: 60, category_name: "lost".to_string() }],
        screens: Vec::new(),
    };
    store.change_business_info(ChangeBusinessInfo { business_info: unknown });
    assert_eq!(store.businesses.len(), 1);
    assert_eq!(store.business_categories.len(), 3);
}

#[test]
fn an_income_is_booked_for_the_business_that_owns_the_screen() {
    let mut store = Store::new();
    assert!(store.create_business_as(new_business("bar"), 2, "hash".to_string()).is_ok());
    assert!(store.screens.insert(screen(1, 2, 100, 10)));
    assert!(store.create_ad_as(new_ad("poster", vec![1]), 4).is_ok());
    assert!(store
        .change_ad_status(AdStatusUpdate { ad_id: 4, new_status: AdStatus::Approved })
        .is_ok());
    let made = store
        .create_ad_order(CreateAdOrder {
            start_time: 10,
            end_time: 20,
            price: 990,
            ad_id: 4,
            screen_id: 1,
        })
        .unwrap();
    assert!(store
        .reject_ad_order(ad_marketplace::store::ad_order::RejectAdOrder {
            ad_order_id: made.ad_order_id
        })
        .is_ok());
    assert!(store.approve_ad_order(ApproveAdOrder { ad_order_id: made.ad_order_id }).is_ok());
    let booked = store.incomes.rows()[0];
    assert_eq!(booked.income, 990);
    assert_eq!(booked.business_id, 2);
    assert_eq!(booked.ad_order_id, made.ad_order_id);
}

#[test]
fn a_payment_is_made_from_what_was_paid() {
    let paid = PaymentData { price: 990, user_id: 5, order_id: 6 };
    assert_eq!(
        paid.to_payment(7),
        Payment { payment_id: 7, price: 990, user_id: 5, order_id: 6 }
    );
    assert_eq!(paid.to_payment(7).id(), 7);
}
