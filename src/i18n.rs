//! Interface texts in each supported language.
use crate::models::ColorMode;
use vstd::prelude::*;

verus! {

/// Supported languages.
#[derive(Debug, Clone, Copy, Default, PartialEq, Eq, Structural)]
pub enum Language {
    #[default]
    English,
    Russian,
    Spanish,
    Persian,
    Chinese,
    Ukrainian,
    Polish,
    Kazakh,
    Arabic,
}

impl Language {
    /// Every language, in the order a picker lists them.
    pub fn all() -> (r: Vec<Language>)
        ensures
            r@ == seq![
                Language::English,
                Language::Russian,
                Language::Spanish,
                Language::Persian,
                Language::Chinese,
                Language::Ukrainian,
                Language::Polish,
                Language::Kazakh,
                Language::Arabic,
            ],
    {
        vec![
            Language::English,
            Language::Russian,
            Language::Spanish,
            Language::Persian,
            Language::Chinese,
            Language::Ukrainian,
            Language::Polish,
            Language::Kazakh,
            Language::Arabic,
        ]
    }

    /// ISO 639-1 two-letter code of the language.
    pub fn code(&self) -> (r: &'static str)
        ensures
            r == language_code(*self),
    {
        match self {
            Language::English => "en",
            Language::Russian => "ru",
            Language::Spanish => "es",
            Language::Persian => "fa",
            Language::Chinese => "zh",
            Language::Ukrainian => "uk",
            Language::Polish => "pl",
            Language::Kazakh => "kk",
            Language::Arabic => "ar",
        }
    }
}

/// ISO 639-1 code of each language.
pub open spec fn language_code(lang: Language) -> &'static str {
    match lang {
        Language::English => "en",
        Language::Russian => "ru",
        Language::Spanish => "es",
        Language::Persian => "fa",
        Language::Chinese => "zh",
        Language::Ukrainian => "uk",
        Language::Polish => "pl",
        Language::Kazakh => "kk",
        Language::Arabic => "ar",
    }
}

/// Window title.
pub open spec fn app_title_text(lang: Language) -> &'static str {
    match lang {
        Language::English => "WhatsMiner Chip Map",
        Language::Russian => "Карта чипов WhatsMiner",
        Language::Spanish => "Mapa de chips WhatsMiner",
        Language::Persian => "نقشه چیپ WhatsMiner",
        Language::Chinese => "WhatsMiner 芯片图",
        Language::Ukrainian => "Карта чіпів WhatsMiner",
        Language::Polish => "Mapa chipów WhatsMiner",
        Language::Kazakh => "WhatsMiner чип картасы",
        Language::Arabic => "خريطة شرائح WhatsMiner",
    }
}

/// Status when idle.
pub open spec fn ready_text(lang: Language) -> &'static str {
    match lang {
        Language::English => "Ready",
        Language::Russian => "Готово",
        Language::Spanish => "Listo",
        Language::Persian => "آماده",
        Language::Chinese => "就绪",
        Language::Ukrainian => "Готово",
        Language::Polish => "Gotowe",
        Language::Kazakh => "Дайын",
        Language::Arabic => "جاهز",
    }
}

/// Status while logging in.
pub open spec fn connecting_text(lang: Language) -> &'static str {
    match lang {
        Language::English => "Connecting...",
        Language::Russian => "Подключение...",
        Language::Spanish => "Conectando...",
        Language::Persian => "در حال اتصال...",
        Language::Chinese => "连接中...",
        Language::Ukrainian => "Підключення...",
        Language::Polish => "Łączenie...",
        Language::Kazakh => "Қосылуда...",
        Language::Arabic => "جاري الاتصال...",
    }
}

/// Prefix of an error status.
pub open spec fn error_text(lang: Language) -> &'static str {
    match lang {
        Language::English | Language::Spanish => "Error",
        Language::Russian => "Ошибка",
        Language::Persian => "خطا",
        Language::Chinese => "错误",
        Language::Ukrainian => "Помилка",
        Language::Polish => "Błąd",
        Language::Kazakh => "Қате",
        Language::Arabic => "خطأ",
    }
}

/// Placeholder of the address field.
pub open spec fn ip_text(_lang: Language) -> &'static str {
    "IP"
}

/// Placeholder of the user field.
pub open spec fn user_text(lang: Language) -> &'static str {
    match lang {
        Language::English => "User",
        Language::Russian => "Пользователь",
        Language::Spanish => "Usuario",
        Language::Persian => "کاربر",
        Language::Chinese => "用户",
        Language::Ukrainian => "Користувач",
        Language::Polish => "Użytkownik",
        Language::Kazakh => "Пайдаланушы",
        Language::Arabic => "مستخدم",
    }
}

/// Placeholder of the password field.
pub open spec fn pass_text(lang: Language) -> &'static str {
    match lang {
        Language::English => "Pass",
        Language::Russian => "Пароль",
        Language::Spanish => "Clave",
        Language::Persian => "رمز",
        Language::Chinese => "密码",
        Language::Ukrainian => "Пароль",
        Language::Polish => "Hasło",
        Language::Kazakh => "Құпиясөз",
        Language::Arabic => "كلمة السر",
    }
}

/// Label of the fetch button.
pub open spec fn fetch_text(lang: Language) -> &'static str {
    match lang {
        Language::English => "Fetch",
        Language::Russian => "Загрузить",
        Language::Spanish => "Obtener",
        Language::Persian => "دریافت",
        Language::Chinese => "获取",
        Language::Ukrainian => "Завантажити",
        Language::Polish => "Pobierz",
        Language::Kazakh => "Жүктеу",
        Language::Arabic => "جلب",
    }
}

/// Label of the fetch button while fetching.
pub open spec fn loading_text(lang: Language) -> &'static str {
    match lang {
        Language::English => "Loading...",
        Language::Russian => "Загрузка...",
        Language::Spanish => "Cargando...",
        Language::Persian => "بارگذاری...",
        Language::Chinese => "加载中...",
        Language::Ukrainian => "Завантаження...",
        Language::Polish => "Ładowanie...",
        Language::Kazakh => "Жүктелуде...",
        Language::Arabic => "جاري التحميل...",
    }
}

/// Label of the color-mode picker.
pub open spec fn color_text(lang: Language) -> &'static str {
    match lang {
        Language::English | Language::Spanish => "Color:",
        Language::Russian => "Цвет:",
        Language::Persian => "رنگ:",
        Language::Chinese => "颜色:",
        Language::Ukrainian => "Колір:",
        Language::Polish => "Kolor:",
        Language::Kazakh => "Түс:",
        Language::Arabic => "اللون:",
    }
}

/// Label of the language picker.
pub open spec fn lang_text(lang: Language) -> &'static str {
    match lang {
        Language::English => "Lang:",
        Language::Russian => "Язык:",
        Language::Spanish => "Idioma:",
        Language::Persian => "زبان:",
        Language::Chinese => "语言:",
        Language::Ukrainian => "Мова:",
        Language::Polish => "Język:",
        Language::Kazakh => "Тіл:",
        Language::Arabic => "اللغة:",
    }
}

/// Hint shown before any data is loaded.
pub open spec fn click_fetch_text(lang: Language) -> &'static str {
    match lang {
        Language::English => "Click 'Fetch' to load miner data",
        Language::Russian => "Нажмите 'Загрузить' для получения данных",
        Language::Spanish => "Haga clic en 'Obtener' para cargar datos",
        Language::Persian => "برای بارگذاری داده‌ها روی 'دریافت' کلیک کنید",
        Language::Chinese => "点击'获取'加载矿机数据",
        Language::Ukrainian => "Натисніть 'Завантажити' для отримання даних",
        Language::Polish => "Kliknij 'Pobierz' aby załadować dane",
        Language::Kazakh => "Деректерді жүктеу үшін 'Жүктеу' басыңыз",
        Language::Arabic => "انقر 'جلب' لتحميل بيانات المُعدِّن",
    }
}

/// Heading of the system information panel.
pub open spec fn system_info_text(lang: Language) -> &'static str {
    match lang {
        Language::English => "── System Info ──",
        Language::Russian => "── Сист. инфо ──",
        Language::Spanish => "── Info Sistema ──",
        Language::Persian => "── اطلاعات سیستم ──",
        Language::Chinese => "── 系统信息 ──",
        Language::Ukrainian => "── Сист. інфо ──",
        Language::Polish => "── Info Systemu ──",
        Language::Kazakh => "── Жүйе ақпараты ──",
        Language::Arabic => "── معلومات النظام ──",
    }
}

/// Abbreviation for firmware.
pub open spec fn firmware_text(lang: Language) -> &'static str {
    match lang {
        Language::Chinese => "固件",
        _ => "FW",
    }
}

/// Word for a hash board slot.
pub open spec fn slot_text(lang: Language) -> &'static str {
    match lang {
        Language::English => "Slot",
        Language::Russian => "Слот",
        Language::Spanish => "Ranura",
        Language::Persian => "اسلات",
        Language::Chinese => "槽位",
        Language::Ukrainian => "Слот",
        Language::Polish => "Slot",
        Language::Kazakh => "Слот",
        Language::Arabic => "فتحة",
    }
}

/// Plural word for chips.
pub open spec fn chips_text(lang: Language) -> &'static str {
    match lang {
        Language::English | Language::Spanish => "chips",
        Language::Russian => "чипов",
        Language::Persian => "چیپ",
        Language::Chinese => "芯片",
        Language::Ukrainian => "чіпів",
        Language::Polish => "chipów",
        Language::Kazakh => "чип",
        Language::Arabic => "شريحة",
    }
}

/// Plural word for slots.
pub open spec fn slots_text(lang: Language) -> &'static str {
    match lang {
        Language::English => "slots",
        Language::Russian => "слотов",
        Language::Spanish => "ranuras",
        Language::Persian => "اسلات",
        Language::Chinese => "槽位",
        Language::Ukrainian => "слотів",
        Language::Polish => "slotów",
        Language::Kazakh => "слот",
        Language::Arabic => "فتحات",
    }
}

/// Name of the temperature color mode.
pub open spec fn color_mode_temperature_text(lang: Language) -> &'static str {
    match lang {
        Language::English => "Temperature",
        Language::Russian => "Температура",
        Language::Spanish => "Temperatura",
        Language::Persian => "دما",
        Language::Chinese => "温度",
        Language::Ukrainian => "Температура",
        Language::Polish => "Temperatura",
        Language::Kazakh => "Температура",
        Language::Arabic => "الحرارة",
    }
}

/// Name of the error-count color mode.
pub open spec fn color_mode_errors_text(lang: Language) -> &'static str {
    match lang {
        Language::English => "Errors",
        Language::Russian => "Ошибки",
        Language::Spanish => "Errores",
        Language::Persian => "خطاها",
        Language::Chinese => "错误",
        Language::Ukrainian => "Помилки",
        Language::Polish => "Błędy",
        Language::Kazakh => "Қателер",
        Language::Arabic => "الأخطاء",
    }
}

/// Name of the CRC color mode.
pub open spec fn color_mode_crc_text(_lang: Language) -> &'static str {
    "CRC"
}

/// Name of the gradient color mode.
pub open spec fn color_mode_gradient_text(lang: Language) -> &'static str {
    match lang {
        Language::English => "Gradient",
        Language::Russian => "Градиент",
        Language::Spanish => "Gradiente",
        Language::Persian => "گرادیان",
        Language::Chinese => "梯度",
        Language::Ukrainian => "Градієнт",
        Language::Polish => "Gradient",
        Language::Kazakh => "Градиент",
        Language::Arabic => "التدرج",
    }
}

/// Name of the cross-slot outlier color mode.
pub open spec fn color_mode_outliers_text(lang: Language) -> &'static str {
    match lang {
        Language::English => "Outliers",
        Language::Russian => "Выбросы",
        Language::Spanish => "Atípicos",
        Language::Persian => "پرت‌ها",
        Language::Chinese => "异常值",
        Language::Ukrainian => "Викиди",
        Language::Polish => "Odstające",
        Language::Kazakh => "Ауытқулар",
        Language::Arabic => "القيم الشاذة",
    }
}

/// Name of the nonce-deficit color mode.
pub open spec fn color_mode_nonce_text(lang: Language) -> &'static str {
    match lang {
        Language::English | Language::Spanish | Language::Polish => "Nonce",
        Language::Russian => "Нонс",
        Language::Persian => "نانس",
        Language::Chinese => "随机数",
        Language::Ukrainian => "Нонс",
        Language::Kazakh => "Нонс",
        Language::Arabic => "نونس",
    }
}

/// Translated interface texts; each function gives one text in a language.
pub struct Tr;

impl Tr {
    /// Window title.
    pub fn app_title(lang: Language) -> (r: &'static str)
        ensures
            r == app_title_text(lang),
    {
        match lang {
            Language::English => "WhatsMiner Chip Map",
            Language::Russian => "Карта чипов WhatsMiner",
            Language::Spanish => "Mapa de chips WhatsMiner",
            Language::Persian => "نقشه چیپ WhatsMiner",
            Language::Chinese => "WhatsMiner 芯片图",
            Language::Ukrainian => "Карта чіпів WhatsMiner",
            Language::Polish => "Mapa chipów WhatsMiner",
            Language::Kazakh => "WhatsMiner чип картасы",
            Language::Arabic => "خريطة شرائح WhatsMiner",
        }
    }

    /// Status when idle.
    pub fn ready(lang: Language) -> (r: &'static str)
        ensures
            r == ready_text(lang),
    {
        match lang {
            Language::English => "Ready",
            Language::Russian => "Готово",
            Language::Spanish => "Listo",
            Language::Persian => "آماده",
            Language::Chinese => "就绪",
            Language::Ukrainian => "Готово",
            Language::Polish => "Gotowe",
            Language::Kazakh => "Дайын",
            Language::Arabic => "جاهز",
        }
    }

    /// Status while logging in.
    pub fn connecting(lang: Language) -> (r: &'static str)
        ensures
            r == connecting_text(lang),
    {
        match lang {
            Language::English => "Connecting...",
            Language::Russian => "Подключение...",
            Language::Spanish => "Conectando...",
            Language::Persian => "در حال اتصال...",
            Language::Chinese => "连接中...",
            Language::Ukrainian => "Підключення...",
            Language::Polish => "Łączenie...",
            Language::Kazakh => "Қосылуда...",
            Language::Arabic => "جاري الاتصال...",
        }
    }

    /// Prefix of an error status.
    pub fn error(lang: Language) -> (r: &'static str)
        ensures
            r == error_text(lang),
    {
        match lang {
            Language::English | Language::Spanish => "Error",
            Language::Russian => "Ошибка",
            Language::Persian => "خطا",
            Language::Chinese => "错误",
            Language::Ukrainian => "Помилка",
            Language::Polish => "Błąd",
            Language::Kazakh => "Қате",
            Language::Arabic => "خطأ",
        }
    }

    /// Placeholder of the address field.
    pub fn ip(_lang: Language) -> (r: &'static str)
        ensures
            r == ip_text(_lang),
    {
        "IP"
    }

    /// Placeholder of the user field.
    pub fn user(lang: Language) -> (r: &'static str)
        ensures
            r == user_text(lang),
    {
        match lang {
            Language::English => "User",
            Language::Russian => "Пользователь",
            Language::Spanish => "Usuario",
            Language::Persian => "کاربر",
            Language::Chinese => "用户",
            Language::Ukrainian => "Користувач",
            Language::Polish => "Użytkownik",
            Language::Kazakh => "Пайдаланушы",
            Language::Arabic => "مستخدم",
        }
    }

    /// Placeholder of the password field.
    pub fn pass(lang: Language) -> (r: &'static str)
        ensures
            r == pass_text(lang),
    {
        match lang {
            Language::English => "Pass",
            Language::Russian => "Пароль",
            Language::Spanish => "Clave",
            Language::Persian => "رمز",
            Language::Chinese => "密码",
            Language::Ukrainian => "Пароль",
            Language::Polish => "Hasło",
            Language::Kazakh => "Құпиясөз",
            Language::Arabic => "كلمة السر",
        }
    }

    /// Label of the fetch button.
    pub fn fetch(lang: Language) -> (r: &'static str)
        ensures
            r == fetch_text(lang),
    {
        match lang {
            Language::English => "Fetch",
            Language::Russian => "Загрузить",
            Language::Spanish => "Obtener",
            Language::Persian => "دریافت",
            Language::Chinese => "获取",
            Language::Ukrainian => "Завантажити",
            Language::Polish => "Pobierz",
            Language::Kazakh => "Жүктеу",
            Language::Arabic => "جلب",
        }
    }

    /// Label of the fetch button while fetching.
    pub fn loading(lang: Language) -> (r: &'static str)
        ensures
            r == loading_text(lang),
    {
        match lang {
            Language::English => "Loading...",
            Language::Russian => "Загрузка...",
            Language::Spanish => "Cargando...",
            Language::Persian => "بارگذاری...",
            Language::Chinese => "加载中...",
            Language::Ukrainian => "Завантаження...",
            Language::Polish => "Ładowanie...",
            Language::Kazakh => "Жүктелуде...",
            Language::Arabic => "جاري التحميل...",
        }
    }

    /// Label of the color-mode picker.
    pub fn color(lang: Language) -> (r: &'static str)
        ensures
            r == color_text(lang),
    {
        match lang {
            Language::English | Language::Spanish => "Color:",
            Language::Russian => "Цвет:",
            Language::Persian => "رنگ:",
            Language::Chinese => "颜色:",
            Language::Ukrainian => "Колір:",
            Language::Polish => "Kolor:",
            Language::Kazakh => "Түс:",
            Language::Arabic => "اللون:",
        }
    }

    /// Label of the language picker.
    pub fn lang(lang: Language) -> (r: &'static str)
        ensures
            r == lang_text(lang),
    {
        match lang {
            Language::English => "Lang:",
            Language::Russian => "Язык:",
            Language::Spanish => "Idioma:",
            Language::Persian => "زبان:",
            Language::Chinese => "语言:",
            Language::Ukrainian => "Мова:",
            Language::Polish => "Język:",
            Language::Kazakh => "Тіл:",
            Language::Arabic => "اللغة:",
        }
    }

    /// Hint shown before any data is loaded.
    pub fn click_fetch(lang: Language) -> (r: &'static str)
        ensures
            r == click_fetch_text(lang),
    {
        match lang {
            Language::English => "Click 'Fetch' to load miner data",
            Language::Russian => "Нажмите 'Загрузить' для получения данных",
            Language::Spanish => "Haga clic en 'Obtener' para cargar datos",
            Language::Persian => "برای بارگذاری داده‌ها روی 'دریافت' کلیک کنید",
            Language::Chinese => "点击'获取'加载矿机数据",
            Language::Ukrainian => "Натисніть 'Завантажити' для отримання даних",
            Language::Polish => "Kliknij 'Pobierz' aby załadować dane",
            Language::Kazakh => "Деректерді жүктеу үшін 'Жүктеу' басыңыз",
            Language::Arabic => "انقر 'جلب' لتحميل بيانات المُعدِّن",
        }
    }

    /// Heading of the system information panel.
    pub fn system_info(lang: Language) -> (r: &'static str)
        ensures
            r == system_info_text(lang),
    {
        match lang {
            Language::English => "── System Info ──",
            Language::Russian => "── Сист. инфо ──",
            Language::Spanish => "── Info Sistema ──",
            Language::Persian => "── اطلاعات سیستم ──",
            Language::Chinese => "── 系统信息 ──",
            Language::Ukrainian => "── Сист. інфо ──",
            Language::Polish => "── Info Systemu ──",
            Language::Kazakh => "── Жүйе ақпараты ──",
            Language::Arabic => "── معلومات النظام ──",
        }
    }

    /// Abbreviation for firmware.
    pub fn firmware(lang: Language) -> (r: &'static str)
        ensures
            r == firmware_text(lang),
    {
        match lang {
            Language::Chinese => "固件",
            _ => "FW",
        }
    }

    /// Word for a hash board slot.
    pub fn slot(lang: Language) -> (r: &'static str)
        ensures
            r == slot_text(lang),
    {
        match lang {
            Language::English => "Slot",
            Language::Russian => "Слот",
            Language::Spanish => "Ranura",
            Language::Persian => "اسلات",
            Language::Chinese => "槽位",
            Language::Ukrainian => "Слот",
            Language::Polish => "Slot",
            Language::Kazakh => "Слот",
            Language::Arabic => "فتحة",
        }
    }

    /// Plural word for chips.
    pub fn chips(lang: Language) -> (r: &'static str)
        ensures
            r == chips_text(lang),
    {
        match lang {
            Language::English | Language::Spanish => "chips",
            Language::Russian => "чипов",
            Language::Persian => "چیپ",
            Language::Chinese => "芯片",
            Language::Ukrainian => "чіпів",
            Language::Polish => "chipów",
            Language::Kazakh => "чип",
            Language::Arabic => "شريحة",
        }
    }

    /// Plural word for slots.
    pub fn slots(lang: Language) -> (r: &'static str)
        ensures
            r == slots_text(lang),
    {
        match lang {
            Language::English => "slots",
            Language::Russian => "слотов",
            Language::Spanish => "ranuras",
            Language::Persian => "اسلات",
            Language::Chinese => "槽位",
            Language::Ukrainian => "слотів",
            Language::Polish => "slotów",
            Language::Kazakh => "слот",
            Language::Arabic => "فتحات",
        }
    }

    /// Name of the temperature color mode.
    pub fn color_mode_temperature(lang: Language) -> (r: &'static str)
        ensures
            r == color_mode_temperature_text(lang),
    {
        match lang {
            Language::English => "Temperature",
            Language::Russian => "Температура",
            Language::Spanish => "Temperatura",
            Language::Persian => "دما",
            Language::Chinese => "温度",
            Language::Ukrainian => "Температура",
            Language::Polish => "Temperatura",
            Language::Kazakh => "Температура",
            Language::Arabic => "الحرارة",
        }
    }

    /// Name of the error-count color mode.
    pub fn color_mode_errors(lang: Language) -> (r: &'static str)
        ensures
            r == color_mode_errors_text(lang),
    {
        match lang {
            Language::English => "Errors",
            Language::Russian => "Ошибки",
            Language::Spanish => "Errores",
            Language::Persian => "خطاها",
            Language::Chinese => "错误",
            Language::Ukrainian => "Помилки",
            Language::Polish => "Błędy",
            Language::Kazakh => "Қателер",
            Language::Arabic => "الأخطاء",
        }
    }

    /// Name of the CRC color mode.
    pub fn color_mode_crc(_lang: Language) -> (r: &'static str)
        ensures
            r == color_mode_crc_text(_lang),
    {
        "CRC"
    }

    /// Name of the gradient color mode.
    pub fn color_mode_gradient(lang: Language) -> (r: &'static str)
        ensures
            r == color_mode_gradient_text(lang),
    {
        match lang {
            Language::English => "Gradient",
            Language::Russian => "Градиент",
            Language::Spanish => "Gradiente",
            Language::Persian => "گرادیان",
            Language::Chinese => "梯度",
            Language::Ukrainian => "Градієнт",
            Language::Polish => "Gradient",
            Language::Kazakh => "Градиент",
            Language::Arabic => "التدرج",
        }
    }

    /// Name of the cross-slot outlier color mode.
    pub fn color_mode_outliers(lang: Language) -> (r: &'static str)
        ensures
            r == color_mode_outliers_text(lang),
    {
        match lang {
            Language::English => "Outliers",
            Language::Russian => "Выбросы",
            Language::Spanish => "Atípicos",
            Language::Persian => "پرت‌ها",
            Language::Chinese => "异常值",
            Language::Ukrainian => "Викиди",
            Language::Polish => "Odstające",
            Language::Kazakh => "Ауытқулар",
            Language::Arabic => "القيم الشاذة",
        }
    }

    /// Name of the nonce-deficit color mode.
    pub fn color_mode_nonce(lang: Language) -> (r: &'static str)
        ensures
            r == color_mode_nonce_text(lang),
    {
        match lang {
            Language::English | Language::Spanish | Language::Polish => "Nonce",
            Language::Russian => "Нонс",
            Language::Persian => "نانس",
            Language::Chinese => "随机数",
            Language::Ukrainian => "Нонс",
            Language::Kazakh => "Нонс",
            Language::Arabic => "نونس",
        }
    }
}

/// A color mode together with the language its label is shown in.
#[derive(Debug, Clone, Copy, PartialEq, Eq, Structural)]
pub struct LocalizedColorMode {
    pub mode: ColorMode,
    pub lang: Language,
}

/// Label of a color mode in a language.
pub open spec fn color_mode_label(mode: ColorMode, lang: Language) -> &'static str {
    match mode {
        ColorMode::Temperature => color_mode_temperature_text(lang),
        ColorMode::Errors => color_mode_errors_text(lang),
        ColorMode::Crc => color_mode_crc_text(lang),
        ColorMode::Gradient => color_mode_gradient_text(lang),
        ColorMode::Outliers => color_mode_outliers_text(lang),
        ColorMode::Nonce => color_mode_nonce_text(lang),
    }
}

impl LocalizedColorMode {
    /// Every color mode, in picker order, labelled in `lang`.
    pub fn all(lang: Language) -> (r: Vec<LocalizedColorMode>)
        ensures
            r@.len() == ColorMode::all_spec().len(),
            forall|i: int|
                0 <= i < r@.len() ==> #[trigger] r@[i] == (LocalizedColorMode {
                    mode: ColorMode::all_spec()[i],
                    lang,
                }),
    {
        let modes = ColorMode::all();
        let mut r: Vec<LocalizedColorMode> = Vec::with_capacity(modes.len());
        let mut i: usize = 0;
        while i < modes.len()
            invariant
                i <= modes@.len(),
                modes@ == ColorMode::all_spec(),
                r@.len() == i,
                forall|j: int|
                    0 <= j < i ==> #[trigger] r@[j] == (LocalizedColorMode {
                        mode: ColorMode::all_spec()[j],
                        lang,
                    }),
            decreases modes@.len() - i,
        {
            r.push(LocalizedColorMode { mode: modes[i], lang });
            i = i + 1;
        }
        r
    }

    /// The mode's label in its language.
    pub fn label(&self) -> (r: &'static str)
        ensures
            r == color_mode_label(self.mode, self.lang),
    {
        match self.mode {
            ColorMode::Temperature => Tr::color_mode_temperature(self.lang),
            ColorMode::Errors => Tr::color_mode_errors(self.lang),
            ColorMode::Crc => Tr::color_mode_crc(self.lang),
            ColorMode::Gradient => Tr::color_mode_gradient(self.lang),
            ColorMode::Outliers => Tr::color_mode_outliers(self.lang),
            ColorMode::Nonce => Tr::color_mode_nonce(self.lang),
        }
    }
}

} // verus!
