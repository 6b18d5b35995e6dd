//! Scenario tests: each drives a whole operation through the library"s
//! request builder and response decoder, with the service"s answer written
//! out as it comes off the wire.

use accuweather::{
    get_current_conditions_from_response, get_daily_forecasts_from_response,
    get_hourly_forecasts_from_response, Accuweather, AccuweatherError,
    AccuweatherInvalidParameterError,
};

fn daily_payload() -> String {
    String::from("{\"Headline\":{\"EffectiveDate\":\"2019-06-01T08:00:00+02:00\",\"EffectiveEpochDate\":1559368800,\"Severity\":3,\"Text\":\"Windy\",\"Category\":\"wind\",\"EndDate\":\"2019-06-01T20:00:00+02:00\",\"EndEpochDate\":1559412000,\"MobileLink\":\"http://m.example.com/h\",\"Link\":\"http://www.example.com/h\"},\"DailyForecasts\":[{\"AirAndPollen\":[{\"Name\":\"Grass\",\"Value\":2,\"Category\":\"Low\",\"CategoryValue\":1,\"Type\":\"Grass\"}],\"Date\":\"2019-06-01T07:00:00+02:00\",\"Day\":{\"CloudCover\":42,\"HoursOfPrecipitation\":1.5,\"HoursOfRain\":1.0,\"Ice\":{\"Value\":0.0,\"Unit\":\"C\",\"UnitType\":17},\"IceProbability\":2,\"Icon\":7,\"IconPhrase\":\"Cloudy\",\"LongPhrase\":\"Mostly cloudy\",\"PrecipitationProbability\":55,\"Rain\":{\"Value\":2.3,\"Unit\":\"C\",\"UnitType\":17},\"RainProbability\":54,\"ShortPhrase\":\"Cloudy\",\"Snow\":{\"Value\":0.0,\"Unit\":\"C\",\"UnitType\":17},\"SnowProbability\":3,\"ThunderstormProbability\":20,\"TotalLiquid\":{\"Value\":2.3,\"Unit\":\"C\",\"UnitType\":17},\"Wind\":{\"Speed\":{\"Value\":12.5,\"Unit\":\"C\",\"UnitType\":17},\"Direction\":{\"Degrees\":230.0,\"Localized\":\"SW\",\"English\":\"SW\"}},\"WindGust\":{\"Speed\":{\"Value\":12.5,\"Unit\":\"C\",\"UnitType\":17},\"Direction\":{\"Degrees\":230.0,\"Localized\":\"SW\",\"English\":\"SW\"}}},\"DegreeDaySummary\":{\"Heating\":{\"Value\":5.0,\"Unit\":\"C\",\"UnitType\":17},\"Cooling\":{\"Value\":0.0,\"Unit\":\"C\",\"UnitType\":17}},\"EpochDate\":1559365200,\"HoursOfSun\":7.6,\"Link\":\"http://www.example.com/d\",\"MobileLink\":\"http://m.example.com/d\",\"Moon\":{\"Rise\":\"2019-06-01T04:06:00+02:00\",\"EpochRise\":1559354760,\"Set\":\"2019-06-01T18:14:00+02:00\",\"EpochSet\":1559405640,\"Phase\":\"WaningCrescent\",\"Age\":27},\"Night\":{\"CloudCover\":42,\"HoursOfPrecipitation\":1.5,\"HoursOfRain\":1.0,\"Ice\":{\"Value\":0.0,\"Unit\":\"C\",\"UnitType\":17},\"IceProbability\":2,\"Icon\":7,\"IconPhrase\":\"Cloudy\",\"LongPhrase\":\"Mostly cloudy\",\"PrecipitationProbability\":55,\"Rain\":{\"Value\":2.3,\"Unit\":\"C\",\"UnitType\":17},\"RainProbability\":54,\"ShortPhrase\":\"Cloudy\",\"Snow\":{\"Value\":0.0,\"Unit\":\"C\",\"UnitType\":17},\"SnowProbability\":3,\"ThunderstormProbability\":20,\"TotalLiquid\":{\"Value\":2.3,\"Unit\":\"C\",\"UnitType\":17},\"Wind\":{\"Speed\":{\"Value\":12.5,\"Unit\":\"C\",\"UnitType\":17},\"Direction\":{\"Degrees\":230.0,\"Localized\":\"SW\",\"English\":\"SW\"}},\"WindGust\":{\"Speed\":{\"Value\":12.5,\"Unit\":\"C\",\"UnitType\":17},\"Direction\":{\"Degrees\":230.0,\"Localized\":\"SW\",\"English\":\"SW\"}}},\"RealFeelTemperature\":{\"Maximum\":{\"Value\":17.0,\"Unit\":\"C\",\"UnitType\":17},\"Minimum\":{\"Value\":6.1,\"Unit\":\"C\",\"UnitType\":17}},\"RealFeelTemperatureShade\":{\"Maximum\":{\"Value\":17.0,\"Unit\":\"C\",\"UnitType\":17},\"Minimum\":{\"Value\":6.1,\"Unit\":\"C\",\"UnitType\":17}},\"Sources\":[\"AccuWeather\"],\"Sun\":{\"Rise\":\"2019-06-01T05:47:00+02:00\",\"EpochRise\":1559360820,\"Set\":\"2019-06-01T21:44:00+02:00\",\"EpochSet\":1559418240},\"Temperature\":{\"Maximum\":{\"Value\":18.3,\"Unit\":\"C\",\"UnitType\":17},\"Minimum\":{\"Value\":5.4,\"Unit\":\"C\",\"UnitType\":17}}}]}")
}

fn hourly_payload() -> String {
    String::from("[{\"Ceiling\":{\"Value\":3048.0,\"Unit\":\"C\",\"UnitType\":17},\"CloudCover\":80,\"DateTime\":\"2019-06-01T11:00:00+02:00\",\"DewPoint\":{\"Value\":4.5,\"Unit\":\"C\",\"UnitType\":17},\"EpochDateTime\":1559379600,\"Ice\":{\"Value\":0.0,\"Unit\":\"C\",\"UnitType\":17},\"IceProbability\":0,\"IconPhrase\":\"Cloudy\",\"IsDaylight\":true,\"Link\":\"http://www.example.com/hh\",\"MobileLink\":\"http://m.example.com/hh\",\"PrecipitationProbability\":40,\"Rain\":{\"Value\":0.6,\"Unit\":\"C\",\"UnitType\":17},\"RainProbability\":40,\"RealFeelTemperature\":{\"Value\":5.0,\"Unit\":\"C\",\"UnitType\":17},\"RelativeHumidity\":83,\"Snow\":{\"Value\":0.0,\"Unit\":\"C\",\"UnitType\":17},\"SnowProbability\":4,\"Temperature\":{\"Value\":6.0,\"Unit\":\"C\",\"UnitType\":17},\"TotalLiquid\":{\"Value\":0.6,\"Unit\":\"C\",\"UnitType\":17},\"UVIndex\":2,\"UVIndexText\":\"Low\",\"Visibility\":{\"Value\":9.7,\"Unit\":\"C\",\"UnitType\":17},\"WeatherIcon\":7,\"WetBulbTemperature\":{\"Value\":5.5,\"Unit\":\"C\",\"UnitType\":17},\"Wind\":{\"Speed\":{\"Value\":12.5,\"Unit\":\"C\",\"UnitType\":17},\"Direction\":{\"Degrees\":230.0,\"Localized\":\"SW\",\"English\":\"SW\"}},\"WindGust\":{\"Speed\":{\"Value\":20.4,\"Unit\":\"C\",\"UnitType\":17}}},{\"Ceiling\":{\"Value\":3048.0,\"Unit\":\"C\",\"UnitType\":17},\"CloudCover\":80,\"DateTime\":\"2019-06-01T11:00:00+02:00\",\"DewPoint\":{\"Value\":4.5,\"Unit\":\"C\",\"UnitType\":17},\"EpochDateTime\":1559379600,\"Ice\":{\"Value\":0.0,\"Unit\":\"C\",\"UnitType\":17},\"IceProbability\":0,\"IconPhrase\":\"Cloudy\",\"IsDaylight\":true,\"Link\":\"http://www.example.com/hh\",\"MobileLink\":\"http://m.example.com/hh\",\"PrecipitationProbability\":40,\"Rain\":{\"Value\":0.6,\"Unit\":\"C\",\"UnitType\":17},\"RainProbability\":40,\"RealFeelTemperature\":{\"Value\":5.0,\"Unit\":\"C\",\"UnitType\":17},\"RelativeHumidity\":83,\"Snow\":{\"Value\":0.0,\"Unit\":\"C\",\"UnitType\":17},\"SnowProbability\":4,\"Temperature\":{\"Value\":6.0,\"Unit\":\"C\",\"UnitType\":17},\"TotalLiquid\":{\"Value\":0.6,\"Unit\":\"C\",\"UnitType\":17},\"UVIndex\":2,\"UVIndexText\":\"Low\",\"Visibility\":{\"Value\":9.7,\"Unit\":\"C\",\"UnitType\":17},\"WeatherIcon\":7,\"WetBulbTemperature\":{\"Value\":5.5,\"Unit\":\"C\",\"UnitType\":17},\"Wind\":{\"Speed\":{\"Value\":12.5,\"Unit\":\"C\",\"UnitType\":17},\"Direction\":{\"Degrees\":230.0,\"Localized\":\"SW\",\"English\":\"SW\"}},\"WindGust\":{\"Speed\":{\"Value\":20.4,\"Unit\":\"C\",\"UnitType\":17}}},{\"Ceiling\":{\"Value\":3048.0,\"Unit\":\"C\",\"UnitType\":17},\"CloudCover\":80,\"DateTime\":\"2019-06-01T11:00:00+02:00\",\"DewPoint\":{\"Value\":4.5,\"Unit\":\"C\",\"UnitType\":17},\"EpochDateTime\":1559379600,\"Ice\":{\"Value\":0.0,\"Unit\":\"C\",\"UnitType\":17},\"IceProbability\":0,\"IconPhrase\":\"Cloudy\",\"IsDaylight\":true,\"Link\":\"http://www.example.com/hh\",\"MobileLink\":\"http://m.example.com/hh\",\"PrecipitationProbability\":40,\"Rain\":{\"Value\":0.6,\"Unit\":\"C\",\"UnitType\":17},\"RainProbability\":40,\"RealFeelTemperature\":{\"Value\":5.0,\"Unit\":\"C\",\"UnitType\":17},\"RelativeHumidity\":83,\"Snow\":{\"Value\":0.0,\"Unit\":\"C\",\"UnitType\":17},\"SnowProbability\":4,\"Temperature\":{\"Value\":6.0,\"Unit\":\"C\",\"UnitType\":17},\"TotalLiquid\":{\"Value\":0.6,\"Unit\":\"C\",\"UnitType\":17},\"UVIndex\":2,\"UVIndexText\":\"Low\",\"Visibility\":{\"Value\":9.7,\"Unit\":\"C\",\"UnitType\":17},\"WeatherIcon\":7,\"WetBulbTemperature\":{\"Value\":5.5,\"Unit\":\"C\",\"UnitType\":17},\"Wind\":{\"Speed\":{\"Value\":12.5,\"Unit\":\"C\",\"UnitType\":17},\"Direction\":{\"Degrees\":230.0,\"Localized\":\"SW\",\"English\":\"SW\"}},\"WindGust\":{\"Speed\":{\"Value\":20.4,\"Unit\":\"C\",\"UnitType\":17}}},{\"Ceiling\":{\"Value\":3048.0,\"Unit\":\"C\",\"UnitType\":17},\"CloudCover\":80,\"DateTime\":\"2019-06-01T11:00:00+02:00\",\"DewPoint\":{\"Value\":4.5,\"Unit\":\"C\",\"UnitType\":17},\"EpochDateTime\":1559379600,\"Ice\":{\"Value\":0.0,\"Unit\":\"C\",\"UnitType\":17},\"IceProbability\":0,\"IconPhrase\":\"Cloudy\",\"IsDaylight\":true,\"Link\":\"http://www.example.com/hh\",\"MobileLink\":\"http://m.example.com/hh\",\"PrecipitationProbability\":40,\"Rain\":{\"Value\":0.6,\"Unit\":\"C\",\"UnitType\":17},\"RainProbability\":40,\"RealFeelTemperature\":{\"Value\":5.0,\"Unit\":\"C\",\"UnitType\":17},\"RelativeHumidity\":83,\"Snow\":{\"Value\":0.0,\"Unit\":\"C\",\"UnitType\":17},\"SnowProbability\":4,\"Temperature\":{\"Value\":6.0,\"Unit\":\"C\",\"UnitType\":17},\"TotalLiquid\":{\"Value\":0.6,\"Unit\":\"C\",\"UnitType\":17},\"UVIndex\":2,\"UVIndexText\":\"Low\",\"Visibility\":{\"Value\":9.7,\"Unit\":\"C\",\"UnitType\":17},\"WeatherIcon\":7,\"WetBulbTemperature\":{\"Value\":5.5,\"Unit\":\"C\",\"UnitType\":17},\"Wind\":{\"Speed\":{\"Value\":12.5,\"Unit\":\"C\",\"UnitType\":17},\"Direction\":{\"Degrees\":230.0,\"Localized\":\"SW\",\"English\":\"SW\"}},\"WindGust\":{\"Speed\":{\"Value\":20.4,\"Unit\":\"C\",\"UnitType\":17}}},{\"Ceiling\":{\"Value\":3048.0,\"Unit\":\"C\",\"UnitType\":17},\"CloudCover\":80,\"DateTime\":\"2019-06-01T11:00:00+02:00\",\"DewPoint\":{\"Value\":4.5,\"Unit\":\"C\",\"UnitType\":17},\"EpochDateTime\":1559379600,\"Ice\":{\"Value\":0.0,\"Unit\":\"C\",\"UnitType\":17},\"IceProbability\":0,\"IconPhrase\":\"Cloudy\",\"IsDaylight\":true,\"Link\":\"http://www.example.com/hh\",\"MobileLink\":\"http://m.example.com/hh\",\"PrecipitationProbability\":40,\"Rain\":{\"Value\":0.6,\"Unit\":\"C\",\"UnitType\":17},\"RainProbability\":40,\"RealFeelTemperature\":{\"Value\":5.0,\"Unit\":\"C\",\"UnitType\":17},\"RelativeHumidity\":83,\"Snow\":{\"Value\":0.0,\"Unit\":\"C\",\"UnitType\":17},\"SnowProbability\":4,\"Temperature\":{\"Value\":6.0,\"Unit\":\"C\",\"UnitType\":17},\"TotalLiquid\":{\"Value\":0.6,\"Unit\":\"C\",\"UnitType\":17},\"UVIndex\":2,\"UVIndexText\":\"Low\",\"Visibility\":{\"Value\":9.7,\"Unit\":\"C\",\"UnitType\":17},\"WeatherIcon\":7,\"WetBulbTemperature\":{\"Value\":5.5,\"Unit\":\"C\",\"UnitType\":17},\"Wind\":{\"Speed\":{\"Value\":12.5,\"Unit\":\"C\",\"UnitType\":17},\"Direction\":{\"Degrees\":230.0,\"Localized\":\"SW\",\"English\":\"SW\"}},\"WindGust\":{\"Speed\":{\"Value\":20.4,\"Unit\":\"C\",\"UnitType\":17}}},{\"Ceiling\":{\"Value\":3048.0,\"Unit\":\"C\",\"UnitType\":17},\"CloudCover\":80,\"DateTime\":\"2019-06-01T11:00:00+02:00\",\"DewPoint\":{\"Value\":4.5,\"Unit\":\"C\",\"UnitType\":17},\"EpochDateTime\":1559379600,\"Ice\":{\"Value\":0.0,\"Unit\":\"C\",\"UnitType\":17},\"IceProbability\":0,\"IconPhrase\":\"Cloudy\",\"IsDaylight\":true,\"Link\":\"http://www.example.com/hh\",\"MobileLink\":\"http://m.example.com/hh\",\"PrecipitationProbability\":40,\"Rain\":{\"Value\":0.6,\"Unit\":\"C\",\"UnitType\":17},\"RainProbability\":40,\"RealFeelTemperature\":{\"Value\":5.0,\"Unit\":\"C\",\"UnitType\":17},\"RelativeHumidity\":83,\"Snow\":{\"Value\":0.0,\"Unit\":\"C\",\"UnitType\":17},\"SnowProbability\":4,\"Temperature\":{\"Value\":6.0,\"Unit\":\"C\",\"UnitType\":17},\"TotalLiquid\":{\"Value\":0.6,\"Unit\":\"C\",\"UnitType\":17},\"UVIndex\":2,\"UVIndexText\":\"Low\",\"Visibility\":{\"Value\":9.7,\"Unit\":\"C\",\"UnitType\":17},\"WeatherIcon\":7,\"WetBulbTemperature\":{\"Value\":5.5,\"Unit\":\"C\",\"UnitType\":17},\"Wind\":{\"Speed\":{\"Value\":12.5,\"Unit\":\"C\",\"UnitType\":17},\"Direction\":{\"Degrees\":230.0,\"Localized\":\"SW\",\"English\":\"SW\"}},\"WindGust\":{\"Speed\":{\"Value\":20.4,\"Unit\":\"C\",\"UnitType\":17}}},{\"Ceiling\":{\"Value\":3048.0,\"Unit\":\"C\",\"UnitType\":17},\"CloudCover\":80,\"DateTime\":\"2019-06-01T11:00:00+02:00\",\"DewPoint\":{\"Value\":4.5,\"Unit\":\"C\",\"UnitType\":17},\"EpochDateTime\":1559379600,\"Ice\":{\"Value\":0.0,\"Unit\":\"C\",\"UnitType\":17},\"IceProbability\":0,\"IconPhrase\":\"Cloudy\",\"IsDaylight\":true,\"Link\":\"http://www.example.com/hh\",\"MobileLink\":\"http://m.example.com/hh\",\"PrecipitationProbability\":40,\"Rain\":{\"Value\":0.6,\"Unit\":\"C\",\"UnitType\":17},\"RainProbability\":40,\"RealFeelTemperature\":{\"Value\":5.0,\"Unit\":\"C\",\"UnitType\":17},\"RelativeHumidity\":83,\"Snow\":{\"Value\":0.0,\"Unit\":\"C\",\"UnitType\":17},\"SnowProbability\":4,\"Temperature\":{\"Value\":6.0,\"Unit\":\"C\",\"UnitType\":17},\"TotalLiquid\":{\"Value\":0.6,\"Unit\":\"C\",\"UnitType\":17},\"UVIndex\":2,\"UVIndexText\":\"Low\",\"Visibility\":{\"Value\":9.7,\"Unit\":\"C\",\"UnitType\":17},\"WeatherIcon\":7,\"WetBulbTemperature\":{\"Value\":5.5,\"Unit\":\"C\",\"UnitType\":17},\"Wind\":{\"Speed\":{\"Value\":12.5,\"Unit\":\"C\",\"UnitType\":17},\"Direction\":{\"Degrees\":230.0,\"Localized\":\"SW\",\"English\":\"SW\"}},\"WindGust\":{\"Speed\":{\"Value\":20.4,\"Unit\":\"C\",\"UnitType\":17}}},{\"Ceiling\":{\"Value\":3048.0,\"Unit\":\"C\",\"UnitType\":17},\"CloudCover\":80,\"DateTime\":\"2019-06-01T11:00:00+02:00\",\"DewPoint\":{\"Value\":4.5,\"Unit\":\"C\",\"UnitType\":17},\"EpochDateTime\":1559379600,\"Ice\":{\"Value\":0.0,\"Unit\":\"C\",\"UnitType\":17},\"IceProbability\":0,\"IconPhrase\":\"Cloudy\",\"IsDaylight\":true,\"Link\":\"http://www.example.com/hh\",\"MobileLink\":\"http://m.example.com/hh\",\"PrecipitationProbability\":40,\"Rain\":{\"Value\":0.6,\"Unit\":\"C\",\"UnitType\":17},\"RainProbability\":40,\"RealFeelTemperature\":{\"Value\":5.0,\"Unit\":\"C\",\"UnitType\":17},\"RelativeHumidity\":83,\"Snow\":{\"Value\":0.0,\"Unit\":\"C\",\"UnitType\":17},\"SnowProbability\":4,\"Temperature\":{\"Value\":6.0,\"Unit\":\"C\",\"UnitType\":17},\"TotalLiquid\":{\"Value\":0.6,\"Unit\":\"C\",\"UnitType\":17},\"UVIndex\":2,\"UVIndexText\":\"Low\",\"Visibility\":{\"Value\":9.7,\"Unit\":\"C\",\"UnitType\":17},\"WeatherIcon\":7,\"WetBulbTemperature\":{\"Value\":5.5,\"Unit\":\"C\",\"UnitType\":17},\"Wind\":{\"Speed\":{\"Value\":12.5,\"Unit\":\"C\",\"UnitType\":17},\"Direction\":{\"Degrees\":230.0,\"Localized\":\"SW\",\"English\":\"SW\"}},\"WindGust\":{\"Speed\":{\"Value\":20.4,\"Unit\":\"C\",\"UnitType\":17}}},{\"Ceiling\":{\"Value\":3048.0,\"Unit\":\"C\",\"UnitType\":17},\"CloudCover\":80,\"DateTime\":\"2019-06-01T11:00:00+02:00\",\"DewPoint\":{\"Value\":4.5,\"Unit\":\"C\",\"UnitType\":17},\"EpochDateTime\":1559379600,\"Ice\":{\"Value\":0.0,\"Unit\":\"C\",\"UnitType\":17},\"IceProbability\":0,\"IconPhrase\":\"Cloudy\",\"IsDaylight\":true,\"Link\":\"http://www.example.com/hh\",\"MobileLink\":\"http://m.example.com/hh\",\"PrecipitationProbability\":40,\"Rain\":{\"Value\":0.6,\"Unit\":\"C\",\"UnitType\":17},\"RainProbability\":40,\"RealFeelTemperature\":{\"Value\":5.0,\"Unit\":\"C\",\"UnitType\":17},\"RelativeHumidity\":83,\"Snow\":{\"Value\":0.0,\"Unit\":\"C\",\"UnitType\":17},\"SnowProbability\":4,\"Temperature\":{\"Value\":6.0,\"Unit\":\"C\",\"UnitType\":17},\"TotalLiquid\":{\"Value\":0.6,\"Unit\":\"C\",\"UnitType\":17},\"UVIndex\":2,\"UVIndexText\":\"Low\",\"Visibility\":{\"Value\":9.7,\"Unit\":\"C\",\"UnitType\":17},\"WeatherIcon\":7,\"WetBulbTemperature\":{\"Value\":5.5,\"Unit\":\"C\",\"UnitType\":17},\"Wind\":{\"Speed\":{\"Value\":12.5,\"Unit\":\"C\",\"UnitType\":17},\"Direction\":{\"Degrees\":230.0,\"Localized\":\"SW\",\"English\":\"SW\"}},\"WindGust\":{\"Speed\":{\"Value\":20.4,\"Unit\":\"C\",\"UnitType\":17}}},{\"Ceiling\":{\"Value\":3048.0,\"Unit\":\"C\",\"UnitType\":17},\"CloudCover\":80,\"DateTime\":\"2019-06-01T11:00:00+02:00\",\"DewPoint\":{\"Value\":4.5,\"Unit\":\"C\",\"UnitType\":17},\"EpochDateTime\":1559379600,\"Ice\":{\"Value\":0.0,\"Unit\":\"C\",\"UnitType\":17},\"IceProbability\":0,\"IconPhrase\":\"Cloudy\",\"IsDaylight\":true,\"Link\":\"http://www.example.com/hh\",\"MobileLink\":\"http://m.example.com/hh\",\"PrecipitationProbability\":40,\"Rain\":{\"Value\":0.6,\"Unit\":\"C\",\"UnitType\":17},\"RainProbability\":40,\"RealFeelTemperature\":{\"Value\":5.0,\"Unit\":\"C\",\"UnitType\":17},\"RelativeHumidity\":83,\"Snow\":{\"Value\":0.0,\"Unit\":\"C\",\"UnitType\":17},\"SnowProbability\":4,\"Temperature\":{\"Value\":6.0,\"Unit\":\"C\",\"UnitType\":17},\"TotalLiquid\":{\"Value\":0.6,\"Unit\":\"C\",\"UnitType\":17},\"UVIndex\":2,\"UVIndexText\":\"Low\",\"Visibility\":{\"Value\":9.7,\"Unit\":\"C\",\"UnitType\":17},\"WeatherIcon\":7,\"WetBulbTemperature\":{\"Value\":5.5,\"Unit\":\"C\",\"UnitType\":17},\"Wind\":{\"Speed\":{\"Value\":12.5,\"Unit\":\"C\",\"UnitType\":17},\"Direction\":{\"Degrees\":230.0,\"Localized\":\"SW\",\"English\":\"SW\"}},\"WindGust\":{\"Speed\":{\"Value\":20.4,\"Unit\":\"C\",\"UnitType\":17}}},{\"Ceiling\":{\"Value\":3048.0,\"Unit\":\"C\",\"UnitType\":17},\"CloudCover\":80,\"DateTime\":\"2019-06-01T11:00:00+02:00\",\"DewPoint\":{\"Value\":4.5,\"Unit\":\"C\",\"UnitType\":17},\"EpochDateTime\":1559379600,\"Ice\":{\"Value\":0.0,\"Unit\":\"C\",\"UnitType\":17},\"IceProbability\":0,\"IconPhrase\":\"Cloudy\",\"IsDaylight\":true,\"Link\":\"http://www.example.com/hh\",\"MobileLink\":\"http://m.example.com/hh\",\"PrecipitationProbability\":40,\"Rain\":{\"Value\":0.6,\"Unit\":\"C\",\"UnitType\":17},\"RainProbability\":40,\"RealFeelTemperature\":{\"Value\":5.0,\"Unit\":\"C\",\"UnitType\":17},\"RelativeHumidity\":83,\"Snow\":{\"Value\":0.0,\"Unit\":\"C\",\"UnitType\":17},\"SnowProbability\":4,\"Temperature\":{\"Value\":6.0,\"Unit\":\"C\",\"UnitType\":17},\"TotalLiquid\":{\"Value\":0.6,\"Unit\":\"C\",\"UnitType\":17},\"UVIndex\":2,\"UVIndexText\":\"Low\",\"Visibility\":{\"Value\":9.7,\"Unit\":\"C\",\"UnitType\":17},\"WeatherIcon\":7,\"WetBulbTemperature\":{\"Value\":5.5,\"Unit\":\"C\",\"UnitType\":17},\"Wind\":{\"Speed\":{\"Value\":12.5,\"Unit\":\"C\",\"UnitType\":17},\"Direction\":{\"Degrees\":230.0,\"Localized\":\"SW\",\"English\":\"SW\"}},\"WindGust\":{\"Speed\":{\"Value\":20.4,\"Unit\":\"C\",\"UnitType\":17}}},{\"Ceiling\":{\"Value\":3048.0,\"Unit\":\"C\",\"UnitType\":17},\"CloudCover\":80,\"DateTime\":\"2019-06-01T11:00:00+02:00\",\"DewPoint\":{\"Value\":4.5,\"Unit\":\"C\",\"UnitType\":17},\"EpochDateTime\":1559379600,\"Ice\":{\"Value\":0.0,\"Unit\":\"C\",\"UnitType\":17},\"IceProbability\":0,\"IconPhrase\":\"Cloudy\",\"IsDaylight\":true,\"Link\":\"http://www.example.com/hh\",\"MobileLink\":\"http://m.example.com/hh\",\"PrecipitationProbability\":40,\"Rain\":{\"Value\":0.6,\"Unit\":\"C\",\"UnitType\":17},\"RainProbability\":40,\"RealFeelTemperature\":{\"Value\":5.0,\"Unit\":\"C\",\"UnitType\":17},\"RelativeHumidity\":83,\"Snow\":{\"Value\":0.0,\"Unit\":\"C\",\"UnitType\":17},\"SnowProbability\":4,\"Temperature\":{\"Value\":7.2,\"Unit\":\"C\",\"UnitType\":17},\"TotalLiquid\":{\"Value\":0.6,\"Unit\":\"C\",\"UnitType\":17},\"UVIndex\":2,\"UVIndexText\":\"Low\",\"Visibility\":{\"Value\":9.7,\"Unit\":\"C\",\"UnitType\":17},\"WeatherIcon\":7,\"WetBulbTemperature\":{\"Value\":5.5,\"Unit\":\"C\",\"UnitType\":17},\"Wind\":{\"Speed\":{\"Value\":12.5,\"Unit\":\"C\",\"UnitType\":17},\"Direction\":{\"Degrees\":230.0,\"Localized\":\"SW\",\"English\":\"SW\"}},\"WindGust\":{\"Speed\":{\"Value\":20.4,\"Unit\":\"C\",\"UnitType\":17}}}]")
}

fn conditions_payload() -> String {
    String::from("[{\"LocalObservationDateTime\":\"2019-06-01T15:58:00+02:00\",\"EpochTime\":1559397480,\"WeatherText\":\"Sunny\",\"WeatherIcon\":1,\"LocalSource\":{\"Id\":7,\"Name\":\"Local Service\",\"WeatherCode\":\"01\"},\"IsDayTime\":true,\"Temperature\":{\"Metric\":{\"Value\":27.9,\"Unit\":\"C\",\"UnitType\":17},\"Imperial\":{\"Value\":82.0,\"Unit\":\"C\",\"UnitType\":17}},\"RealFeelTemperature\":{\"Metric\":{\"Value\":29.3,\"Unit\":\"C\",\"UnitType\":17},\"Imperial\":{\"Value\":85.0,\"Unit\":\"C\",\"UnitType\":17}},\"RealFeelTemperatureShade\":{\"Metric\":{\"Value\":26.4,\"Unit\":\"C\",\"UnitType\":17},\"Imperial\":{\"Value\":79.0,\"Unit\":\"C\",\"UnitType\":17}},\"RelativeHumidity\":40,\"DewPoint\":{\"Metric\":{\"Value\":13.2,\"Unit\":\"C\",\"UnitType\":17},\"Imperial\":{\"Value\":56.0,\"Unit\":\"C\",\"UnitType\":17}},\"Wind\":{\"Speed\":{\"Metric\":{\"Value\":15.9,\"Unit\":\"C\",\"UnitType\":17},\"Imperial\":{\"Value\":9.9,\"Unit\":\"C\",\"UnitType\":17}},\"Direction\":{\"Degrees\":230.0,\"Localized\":\"SW\",\"English\":\"SW\"}},\"WindGust\":{\"Speed\":{\"Metric\":{\"Value\":24.1,\"Unit\":\"C\",\"UnitType\":17},\"Imperial\":{\"Value\":15.0,\"Unit\":\"C\",\"UnitType\":17}}},\"UVIndex\":7,\"UVIndexText\":\"High\",\"Visibility\":{\"Metric\":{\"Value\":16.1,\"Unit\":\"C\",\"UnitType\":17},\"Imperial\":{\"Value\":10.0,\"Unit\":\"C\",\"UnitType\":17}},\"ObstructionsToVisibility\":\"\",\"CloudCover\":10,\"Ceiling\":{\"Metric\":{\"Value\":12192.0,\"Unit\":\"C\",\"UnitType\":17},\"Imperial\":{\"Value\":40000.0,\"Unit\":\"C\",\"UnitType\":17}},\"Pressure\":{\"Metric\":{\"Value\":1017.0,\"Unit\":\"C\",\"UnitType\":17},\"Imperial\":{\"Value\":30.03,\"Unit\":\"C\",\"UnitType\":17}},\"PressureTendency\":{\"LocalizedText\":\"Steady\",\"Code\":\"S\"},\"Past24HourTemperatureDeparture\":{\"Metric\":{\"Value\":1.7,\"Unit\":\"C\",\"UnitType\":17},\"Imperial\":{\"Value\":3.0,\"Unit\":\"C\",\"UnitType\":17}},\"ApparentTemperature\":{\"Metric\":{\"Value\":27.2,\"Unit\":\"C\",\"UnitType\":17},\"Imperial\":{\"Value\":81.0,\"Unit\":\"C\",\"UnitType\":17}},\"WindChillTemperature\":{\"Metric\":{\"Value\":27.8,\"Unit\":\"C\",\"UnitType\":17},\"Imperial\":{\"Value\":82.0,\"Unit\":\"C\",\"UnitType\":17}},\"WetBulbTemperature\":{\"Metric\":{\"Value\":18.9,\"Unit\":\"C\",\"UnitType\":17},\"Imperial\":{\"Value\":66.0,\"Unit\":\"C\",\"UnitType\":17}},\"Precip1hr\":{\"Metric\":{\"Value\":0.0,\"Unit\":\"C\",\"UnitType\":17},\"Imperial\":{\"Value\":0.0,\"Unit\":\"C\",\"UnitType\":17}},\"PrecipitationSummary\":{\"Precipitation\":{\"Metric\":{\"Value\":0.0,\"Unit\":\"C\",\"UnitType\":17},\"Imperial\":{\"Value\":0.0,\"Unit\":\"C\",\"UnitType\":17}},\"PastHour\":{\"Metric\":{\"Value\":0.0,\"Unit\":\"C\",\"UnitType\":17},\"Imperial\":{\"Value\":0.0,\"Unit\":\"C\",\"UnitType\":17}},\"Past3Hours\":{\"Metric\":{\"Value\":0.0,\"Unit\":\"C\",\"UnitType\":17},\"Imperial\":{\"Value\":0.0,\"Unit\":\"C\",\"UnitType\":17}},\"Past6Hours\":{\"Metric\":{\"Value\":0.0,\"Unit\":\"C\",\"UnitType\":17},\"Imperial\":{\"Value\":0.0,\"Unit\":\"C\",\"UnitType\":17}},\"Past9Hours\":{\"Metric\":{\"Value\":0.0,\"Unit\":\"C\",\"UnitType\":17},\"Imperial\":{\"Value\":0.0,\"Unit\":\"C\",\"UnitType\":17}},\"Past12Hours\":{\"Metric\":{\"Value\":0.0,\"Unit\":\"C\",\"UnitType\":17},\"Imperial\":{\"Value\":0.0,\"Unit\":\"C\",\"UnitType\":17}},\"Past18Hours\":{\"Metric\":{\"Value\":0.0,\"Unit\":\"C\",\"UnitType\":17},\"Imperial\":{\"Value\":0.0,\"Unit\":\"C\",\"UnitType\":17}},\"Past24Hours\":{\"Metric\":{\"Value\":0.2,\"Unit\":\"C\",\"UnitType\":17},\"Imperial\":{\"Value\":0.01,\"Unit\":\"C\",\"UnitType\":17}}},\"TemperatureSummary\":{\"Past6HourRange\":{\"Minimum\":{\"Metric\":{\"Value\":16.1,\"Unit\":\"C\",\"UnitType\":17},\"Imperial\":{\"Value\":61.0,\"Unit\":\"C\",\"UnitType\":17}},\"Maximum\":{\"Metric\":{\"Value\":28.3,\"Unit\":\"C\",\"UnitType\":17},\"Imperial\":{\"Value\":83.0,\"Unit\":\"C\",\"UnitType\":17}}},\"Past12HourRange\":{\"Minimum\":{\"Metric\":{\"Value\":16.1,\"Unit\":\"C\",\"UnitType\":17},\"Imperial\":{\"Value\":61.0,\"Unit\":\"C\",\"UnitType\":17}},\"Maximum\":{\"Metric\":{\"Value\":28.3,\"Unit\":\"C\",\"UnitType\":17},\"Imperial\":{\"Value\":83.0,\"Unit\":\"C\",\"UnitType\":17}}},\"Past24HourRange\":{\"Minimum\":{\"Metric\":{\"Value\":16.1,\"Unit\":\"C\",\"UnitType\":17},\"Imperial\":{\"Value\":61.0,\"Unit\":\"C\",\"UnitType\":17}},\"Maximum\":{\"Metric\":{\"Value\":28.3,\"Unit\":\"C\",\"UnitType\":17},\"Imperial\":{\"Value\":83.0,\"Unit\":\"C\",\"UnitType\":17}}}},\"MobileLink\":\"http://m.example.com/c\",\"Link\":\"http://www.example.com/c\",\"HasPrecipitation\":false,\"PrecipitationType\":null}]")
}

#[test]
fn test_daily_forecast_ok() {
    let body = daily_payload();
    let answer = get_daily_forecasts_from_response(200, &body).unwrap();
    assert_eq!(
        answer.daily_forecasts[0].temperature.minimum.value.parse::<f64>().unwrap(),
        5.4
    );
    assert_eq!(answer.daily_forecasts[0].temperature.minimum.value, "5.4");
    assert_eq!(answer.headline.severity, 3);
    assert_eq!(answer.daily_forecasts[0].air_and_pollen[0].name, "Grass");
    assert_eq!(answer.daily_forecasts[0].moon.age, Some(27));
    assert_eq!(answer.daily_forecasts[0].sun.epoch_rise, 1559360820);
}

#[test]
fn test_daily_forecast_nok_forbidden() {
    let res = get_daily_forecasts_from_response(403, "");
    assert!(res.is_err());
    assert_eq!(res.unwrap_err(), AccuweatherError::HttpStatus(403));
}

#[test]
fn test_daily_forecast_nok_badlocation() {
    // An unconfigured location: the service answers with an error page.
    let res = get_daily_forecasts_from_response(404, "{}");
    assert!(res.is_err());
}

#[test]
fn test_hourly_forecast_ok() {
    let body = hourly_payload();
    let forecasts = get_hourly_forecasts_from_response(200, &body).unwrap();
    assert_eq!(forecasts.len(), 12);
    assert_eq!(forecasts[11].temperature.value.parse::<f64>().unwrap(), 7.2);
    assert_eq!(forecasts[0].temperature.value, "6.0");
    assert_eq!(forecasts[11].uv_index, 2);
    assert_eq!(forecasts[11].uv_index_text, "Low");
    assert!(forecasts[11].is_daylight);
}

#[test]
fn test_hourly_forecast_nok_forbidden() {
    let res = get_hourly_forecasts_from_response(403, "");
    assert!(res.is_err());
    assert_eq!(res.unwrap_err(), AccuweatherError::HttpStatus(403));
}

#[test]
fn test_hourly_forecast_nok_badlocation() {
    let res = get_hourly_forecasts_from_response(404, "{}");
    assert!(res.is_err());
}

#[test]
fn test_current_condition_ok() {
    let body = conditions_payload();
    let conditions = get_current_conditions_from_response(200, &body).unwrap();
    assert_eq!(conditions.len(), 1);
    assert_eq!(conditions[0].temperature.metric.value.parse::<f64>().unwrap(), 27.9);
    assert_eq!(conditions[0].temperature.metric.value, "27.9");
    assert_eq!(conditions[0].precipitation_type, None);
    assert_eq!(conditions[0].local_source.as_ref().unwrap().id, 7);
    assert!(!conditions[0].has_precipitation);
}

#[test]
fn test_current_condition_nok_forbidden() {
    let res = get_current_conditions_from_response(403, "");
    assert!(res.is_err());
    assert_eq!(res.unwrap_err(), AccuweatherError::HttpStatus(403));
}

#[test]
fn test_current_condition_nok_badlocation() {
    let res = get_current_conditions_from_response(404, "{}");
    assert!(res.is_err());
}

#[test]
fn hourly_rejects_bad_periods_before_any_request() {
    let client = Accuweather::new(String::from("abcdefg"), Some(12345));
    for period in [0i8, 2, 5, 11, 13, 23, 25, 71, 73, 119, 121, -1, 127] {
        let res = client.get_hourly_forecasts_url(period);
        assert_eq!(
            res.unwrap_err(),
            AccuweatherError::InvalidParameter(AccuweatherInvalidParameterError)
        );
    }
    for period in [1i8, 12, 24, 72, 120] {
        assert!(client.get_hourly_forecasts_url(period).is_ok());
    }
}

#[test]
fn daily_rejects_bad_periods_before_any_request() {
    let client = Accuweather::new(String::from("abcdefg"), Some(12345));
    for period in [0i8, 2, 4, 6, 9, 11, 14, 16, -5, 127] {
        let res = client.get_daily_forecasts_url(period);
        assert_eq!(
            res.unwrap_err(),
            AccuweatherError::InvalidParameter(AccuweatherInvalidParameterError)
        );
    }
    for period in [1i8, 5, 10, 15] {
        assert!(client.get_daily_forecasts_url(period).is_ok());
    }
}

#[test]
fn missing_location_is_an_error_not_a_crash() {
    let mut client = Accuweather::new(String::from("abcdefg"), None);
    assert_eq!(
        client.get_daily_forecasts_url(5).unwrap_err(),
        AccuweatherError::MissingLocation
    );
    assert_eq!(
        client.get_hourly_forecasts_url(12).unwrap_err(),
        AccuweatherError::MissingLocation
    );
    assert_eq!(
        client.get_current_conditions_url().unwrap_err(),
        AccuweatherError::MissingLocation
    );
    client.set_location(Some(12345));
    assert!(client.get_current_conditions_url().is_ok());
}

#[test]
fn urls_are_exact() {
    let client = Accuweather::with_base_url(
        String::from("abcdefg"),
        Some(12345),
        String::from("http://127.0.0.1:1234"),
    );
    assert_eq!(
        client.get_daily_forecasts_url(5).unwrap(),
        "http://127.0.0.1:1234/forecasts/v1/daily/5day/12345?apikey=abcdefg&details=true&metric=true"
    );
    assert_eq!(
        client.get_hourly_forecasts_url(12).unwrap(),
        "http://127.0.0.1:1234/forecasts/v1/hourly/12hour/12345?apikey=abcdefg&details=true&metric=true"
    );
    assert_eq!(
        client.get_current_conditions_url().unwrap(),
        "http://127.0.0.1:1234/currentconditions/v1/12345?apikey=abcdefg&details=true&language=en-us"
    );
}

#[test]
fn query_values_are_percent_encoded() {
    let client = Accuweather::with_base_url(
        String::from("a b&c/é"),
        Some(-7),
        String::from("http://h"),
    );
    assert_eq!(
        client.get_current_conditions_url().unwrap(),
        "http://h/currentconditions/v1/-7?apikey=a%20b%26c%2F%C3%A9&details=true&language=en-us"
    );
}

#[test]
fn default_base_url_points_at_the_service() {
    let client = Accuweather::new(String::from("k"), Some(1));
    assert!(client
        .get_daily_forecasts_url(5)
        .unwrap()
        .starts_with("http://dataservice.accuweather.com/"));
}

#[test]
fn air_and_pollen_type_defaults_to_empty() {
    let body = daily_payload().replace(",\"Type\":\"Grass\"", "");
    let answer = get_daily_forecasts_from_response(200, &body).unwrap();
    assert_eq!(answer.daily_forecasts[0].air_and_pollen[0].type_, "");
}

#[test]
fn absent_moon_fields_decode_to_none() {
    let body = daily_payload().replace(
        "{\"Rise\":\"2019-06-01T04:06:00+02:00\",\"EpochRise\":1559354760,\"Set\":\"2019-06-01T18:14:00+02:00\",\"EpochSet\":1559405640,\"Phase\":\"WaningCrescent\",\"Age\":27}",
        "{}",
    );
    let answer = get_daily_forecasts_from_response(200, &body).unwrap();
    let moon = &answer.daily_forecasts[0].moon;
    assert_eq!(moon.rise, None);
    assert_eq!(moon.epoch_rise, None);
    assert_eq!(moon.phase, None);
    assert_eq!(moon.age, None);
}

#[test]
fn a_missing_field_fails_the_whole_decode() {
    let body = hourly_payload().replace("\"UVIndex\":2,", "");
    let res = get_hourly_forecasts_from_response(200, &body);
    assert_eq!(res.unwrap_err(), AccuweatherError::Decode);
}

#[test]
fn a_body_that_is_not_json_is_a_decode_error() {
    let res = get_hourly_forecasts_from_response(200, "not json");
    assert_eq!(res.unwrap_err(), AccuweatherError::Decode);
}

#[test]
fn an_integer_too_large_for_its_field_fails_the_decode() {
    let body = hourly_payload().replace("\"UVIndex\":2,", "\"UVIndex\":4294967296,");
    let res = get_hourly_forecasts_from_response(200, &body);
    assert_eq!(res.unwrap_err(), AccuweatherError::Decode);
}

#[test]
fn integer_texts_parse_back_and_forth() {
    assert_eq!(accuweather::json::i64_to_string(0), "0");
    assert_eq!(accuweather::json::i64_to_string(-120), "-120");
    assert_eq!(accuweather::json::i64_to_string(i64::MIN), "-9223372036854775808");
    assert_eq!(accuweather::json::parse_i64("12345"), Some(12345));
    assert_eq!(accuweather::json::parse_i64("-9223372036854775808"), Some(i64::MIN));
    assert_eq!(accuweather::json::parse_i64("9223372036854775808"), None);
    assert_eq!(accuweather::json::parse_i64("007"), None);
    assert_eq!(accuweather::json::parse_i64("-0"), None);
    assert_eq!(accuweather::json::parse_i64("1.5"), None);
    assert_eq!(accuweather::json::parse_i64(""), None);
}

#[test]
fn reserialized_payload_decodes_to_the_same_records() {
    // Parse the wire text, write it back out through serde_json, and decode
    // both: every field value survives.
    let body = conditions_payload();
    let value: serde_json::Value = serde_json::from_str(&body).unwrap();
    let rewritten = serde_json::to_string(&value).unwrap();
    let a = get_current_conditions_from_response(200, &body).unwrap();
    let b = get_current_conditions_from_response(200, &rewritten).unwrap();
    assert_eq!(a, b);
}
